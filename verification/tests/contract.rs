use donations::contract::instantiate;
use donations::execute::{execute, Transfer};
use donations::msg::{
    ExecuteMsg, ListDonationsForProjectByPatronResp, ListProjectsResp, QueryMsg, QueryResponse,
};
use donations::query::query;
use donations::state::{Coin, DonationTx, MessageInfo, Project, State};

fn coins(amount: u128, denom: &str) -> Vec<Coin> {
    vec![Coin { denom: denom.to_string(), amount }]
}

fn info(sender: &str, funds: Vec<Coin>) -> MessageInfo {
    MessageInfo { sender: sender.to_string(), funds }
}

/// The total paid to `who` in `denom` by a set of transfer instructions.
fn paid_to(transfers: &[Transfer], who: &str, denom: &str) -> u128 {
    let mut total: u128 = 0;
    for t in transfers {
        if t.to_address == who {
            for c in &t.amount {
                if c.denom == denom {
                    total += c.amount;
                }
            }
        }
    }
    total
}

fn list_projects_of(state: &State) -> Vec<Project> {
    match query(state, QueryMsg::ListProjects {}) {
        Ok(QueryResponse::Projects(ListProjectsResp { projects })) => projects,
        _ => panic!("ListProjects failed"),
    }
}

fn donations_of(state: &State, project_id: u128, patron: &str) -> Vec<DonationTx> {
    match query(
        state,
        QueryMsg::ListDonationsForProjectByPatron { project_id, patron: patron.to_string() },
    ) {
        Ok(QueryResponse::Donations(ListDonationsForProjectByPatronResp { donations })) => {
            donations
        }
        _ => panic!("ListDonationsForProjectByPatron failed"),
    }
}

#[test]
fn test_instantiate() {
    let state = instantiate(info("owner", vec![]));

    let projects = list_projects_of(&state);

    assert!(projects.is_empty());
}

#[test]
fn test_create_project() {
    let mut state = instantiate(info("owner", vec![]));

    let projects = list_projects_of(&state);

    assert!(projects.is_empty());

    execute(
        &mut state,
        info("proj_creator", vec![]),
        ExecuteMsg::CreateProject { name: "Project".to_string() },
    )
    .unwrap();

    let projects = list_projects_of(&state);

    assert_eq!(projects.len(), 1);
}

#[test]
fn test_donate_below_threshold_nonround() {
    let contract_owner = "contract_owner";
    let proj_owner = "proj_owner";
    let patron = "patron";
    let patron_funds: u128 = 12;

    let mut state = instantiate(info(contract_owner, vec![]));

    execute(
        &mut state,
        info(proj_owner, vec![]),
        ExecuteMsg::CreateProject { name: "projectname".to_string() },
    )
    .unwrap();

    let projects = list_projects_of(&state);
    assert_eq!(projects.len(), 1);

    let transfers = execute(
        &mut state,
        info(patron, coins(5, "eth")),
        ExecuteMsg::Donate { project_id: 0 },
    )
    .unwrap();

    assert_eq!(paid_to(&transfers, contract_owner, "eth"), 1);
    let undistributed = 5 - paid_to(&transfers, contract_owner, "eth")
        - paid_to(&transfers, proj_owner, "eth");
    assert_eq!(undistributed, 0);

    // the project owner has received the donation from the patron. 1eth was
    // deducted as a fee due to rounding (5 * 9 / 10 = 4).
    assert_eq!(paid_to(&transfers, proj_owner, "eth"), 4);
    assert_eq!(patron_funds - 5, 7);

    let donations = donations_of(&state, 0, patron);

    assert_eq!(donations.len(), 1);
    assert_eq!(donations[0], DonationTx(coins(5, "eth")));
}

#[test]
fn test_donate_below_threshold_round() {
    let contract_owner = "contract_owner";
    let proj_owner = "proj_owner";
    let patron = "patron";
    let patron_funds: u128 = 20;

    let mut state = instantiate(info(contract_owner, vec![]));

    execute(
        &mut state,
        info(proj_owner, vec![]),
        ExecuteMsg::CreateProject { name: "projectname".to_string() },
    )
    .unwrap();

    let projects = list_projects_of(&state);
    assert_eq!(projects.len(), 1);

    let transfers = execute(
        &mut state,
        info(patron, coins(10, "eth")),
        ExecuteMsg::Donate { project_id: 0 },
    )
    .unwrap();

    assert_eq!(paid_to(&transfers, contract_owner, "eth"), 1);
    let undistributed = 10 - paid_to(&transfers, contract_owner, "eth")
        - paid_to(&transfers, proj_owner, "eth");
    assert_eq!(undistributed, 0);

    // the project owner has received the donation from the patron.
    assert_eq!(paid_to(&transfers, proj_owner, "eth"), 9);
    assert_eq!(patron_funds - 10, 10);

    let donations = donations_of(&state, 0, patron);

    assert_eq!(donations.len(), 1);
    assert_eq!(donations[0], DonationTx(coins(10, "eth")));
}

#[test]
fn test_donate_above_threshold_nonround() {
    let contract_owner = "contract_owner";
    let proj_owner = "proj_owner";
    let patron = "patron";
    let patron_funds: u128 = 10_002;

    let mut state = instantiate(info(contract_owner, vec![]));

    execute(
        &mut state,
        info(proj_owner, vec![]),
        ExecuteMsg::CreateProject { name: "projectname".to_string() },
    )
    .unwrap();

    let projects = list_projects_of(&state);
    assert_eq!(projects.len(), 1);

    let transfers = execute(
        &mut state,
        info(patron, coins(10_001, "eth")),
        ExecuteMsg::Donate { project_id: 0 },
    )
    .unwrap();

    assert_eq!(paid_to(&transfers, contract_owner, "eth"), 501);
    let undistributed = 10_001 - paid_to(&transfers, contract_owner, "eth")
        - paid_to(&transfers, proj_owner, "eth");
    assert_eq!(undistributed, 0);

    // the project owner has received the donation from the patron.
    assert_eq!(paid_to(&transfers, proj_owner, "eth"), 9_500);
    assert_eq!(patron_funds - 10_001, 1);

    let donations = donations_of(&state, 0, patron);

    assert_eq!(donations.len(), 1);
    assert_eq!(donations[0], DonationTx(coins(10_001, "eth")));
}

#[test]
fn test_donate_above_threshold_round() {
    let contract_owner = "contract_owner";
    let proj_owner = "proj_owner";
    let patron = "patron";
    let patron_funds: u128 = 10_021;

    let mut state = instantiate(info(contract_owner, vec![]));

    execute(
        &mut state,
        info(proj_owner, vec![]),
        ExecuteMsg::CreateProject { name: "projectname".to_string() },
    )
    .unwrap();

    let projects = list_projects_of(&state);
    assert_eq!(projects.len(), 1);

    let transfers = execute(
        &mut state,
        info(patron, coins(10_020, "eth")),
        ExecuteMsg::Donate { project_id: 0 },
    )
    .unwrap();

    assert_eq!(paid_to(&transfers, contract_owner, "eth"), 501);
    let undistributed = 10_020 - paid_to(&transfers, contract_owner, "eth")
        - paid_to(&transfers, proj_owner, "eth");
    assert_eq!(undistributed, 0);

    // the project owner has received the donation from the patron.
    assert_eq!(paid_to(&transfers, proj_owner, "eth"), 9_519);
    assert_eq!(patron_funds - 10_020, 1);

    let donations = donations_of(&state, 0, patron);

    assert_eq!(donations.len(), 1);
    assert_eq!(donations[0], DonationTx(coins(10_020, "eth")));
}

#[test]
fn test_list_projects() {
    let mut state = instantiate(info("owner", vec![]));

    let projects = list_projects_of(&state);

    assert!(projects.is_empty());

    execute(
        &mut state,
        info("proj_creator", vec![]),
        ExecuteMsg::CreateProject { name: "Project0".to_string() },
    )
    .unwrap();

    let projects = list_projects_of(&state);

    assert_eq!(projects.len(), 1);
    let Project { name, creator } = projects.get(0).unwrap();
    assert_eq!(name, "Project0");
    assert_eq!(creator, "proj_creator");

    execute(
        &mut state,
        info("proj_creator", vec![]),
        ExecuteMsg::CreateProject { name: "Project1".to_string() },
    )
    .unwrap();

    let projects = list_projects_of(&state);

    assert_eq!(projects.len(), 2);
    let Project { name, creator } = projects.get(1).unwrap();
    assert_eq!(name, "Project1");
    assert_eq!(creator, "proj_creator");
}

#[test]
fn test_list_donations_for_project_by_patrons() {
    let mut state = instantiate(info("owner", vec![]));

    let random_person = "random_person";
    let patron = "patron";

    let res = query(
        &state,
        QueryMsg::ListDonationsForProjectByPatron {
            // We haven't created any projects yet, so this project_id doesn't exist.
            project_id: 0,
            patron: random_person.to_string(),
        },
    );

    assert!(res.is_err());

    execute(
        &mut state,
        info("proj_creator", vec![]),
        ExecuteMsg::CreateProject { name: "Project0".to_string() },
    )
    .unwrap();

    let donations = donations_of(&state, 0, random_person);

    assert!(donations.is_empty());

    execute(
        &mut state,
        info(patron, coins(10, "eth")),
        ExecuteMsg::Donate { project_id: 0 },
    )
    .unwrap();

    let donations = donations_of(&state, 0, patron);

    assert_eq!(donations.len(), 1);
    assert_eq!(donations[0], DonationTx(coins(10, "eth")));

    let donations = donations_of(&state, 0, random_person);

    assert!(donations.is_empty());
}

#[test]
fn proper_instantiation() {
    let state = instantiate(info("creator", vec![]));

    // instantiation owes no transfers and starts from an empty registry
    assert_eq!(state.author, "creator");
    assert_eq!(0, list_projects_of(&state).len());
}
