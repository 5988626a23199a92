//! The query surface: read-only projections over the project registry
//! and the donation journal.

use vstd::prelude::*;
use crate::error::{ContractError, ContractResult, NonexistentProjectIdError};
use crate::msg::{ListDonationsForProjectByPatronResp, ListProjectsResp, QueryMsg, QueryResponse};
use crate::state::{clone_project, clone_tx, history_of, DonationTx, Project, State};

verus! {

/// Returns every registered project, verbatim and in creation order:
/// exactly as many entries as the counter records, never a silently
/// shortened list.
pub fn list_projects(state: &State) -> (r: ContractResult<ListProjectsResp>)
    requires
        state.wf(),
    ensures
        match r {
            Ok(resp) => resp.projects.deep_view() == state@.projects,
            Err(_) => false,
        },
{
    let mut projects: Vec<Project> = Vec::new();
    let mut i: usize = 0;
    while i < state.projects.len()
        invariant
            i <= state.projects.len(),
            projects.deep_view() =~= state.projects.deep_view().take(i as int),
        decreases state.projects.len() - i,
    {
        let ghost prev = projects.deep_view();
        projects.push(clone_project(&state.projects[i]));
        proof {
            assert(projects.deep_view() =~= prev.push(state.projects.deep_view()[i as int]));
            assert(state.projects.deep_view().take(i + 1) =~= state.projects.deep_view().take(
                i as int,
            ).push(state.projects.deep_view()[i as int]));
        }
        i = i + 1;
    }
    assert(state.projects.deep_view().take(state.projects@.len() as int)
        =~= state.projects.deep_view());
    Ok(ListProjectsResp { projects })
}

/// Returns the raw donation records of one (project, patron) pair, in
/// call order, or fails when the project id has never been assigned.
/// A pair without donations has an empty history; that is not an error.
pub fn list_donations_for_project_by_patron(
    state: &State,
    project_id: u128,
    patron: String,
) -> (r: ContractResult<ListDonationsForProjectByPatronResp>)
    requires
        state.wf(),
    ensures
        match r {
            Ok(resp) => (project_id as int) < state@.project_count
                && resp.donations.deep_view() == history_of(
                state@.donations,
                project_id as int,
                patron@,
            ),
            Err(e) => (project_id as int) >= state@.project_count && e
                == ContractError::NonexistentProjectId(NonexistentProjectIdError(project_id)),
        },
{
    if project_id >= state.project_count {
        return Err(ContractError::NonexistentProjectId(NonexistentProjectIdError(project_id)));
    }
    let ghost donsv = state.donations.deep_view();
    let mut donations: Vec<DonationTx> = Vec::new();
    let mut i: usize = 0;
    while i < state.donations.len()
        invariant
            i <= state.donations.len(),
            donsv == state.donations.deep_view(),
            donations.deep_view() =~= history_of(donsv.take(i as int), project_id as int, patron@),
        decreases state.donations.len() - i,
    {
        let entry = &state.donations[i];
        proof {
            assert(donsv.take(i + 1).drop_last() =~= donsv.take(i as int));
            assert(donsv.take(i + 1).last() == donsv[i as int]);
        }
        if entry.project_id == project_id && entry.patron == patron {
            let ghost prev = donations.deep_view();
            donations.push(clone_tx(&entry.tx));
            assert(donations.deep_view() =~= prev.push(donsv[i as int].funds));
        }
        i = i + 1;
    }
    assert(donsv.take(state.donations@.len() as int) =~= donsv);
    Ok(ListDonationsForProjectByPatronResp { donations })
}

/// Dispatches one inbound query to its projection.
pub fn query(state: &State, msg: QueryMsg) -> (r: ContractResult<QueryResponse>)
    requires
        state.wf(),
    ensures
        match msg {
            QueryMsg::ListProjects {  } => match r {
                Ok(QueryResponse::Projects(resp)) => resp.projects.deep_view() == state@.projects,
                _ => false,
            },
            QueryMsg::ListDonationsForProjectByPatron { project_id, patron } => match r {
                Ok(QueryResponse::Donations(resp)) => (project_id as int) < state@.project_count
                    && resp.donations.deep_view() == history_of(
                    state@.donations,
                    project_id as int,
                    patron@,
                ),
                Err(e) => (project_id as int) >= state@.project_count && e
                    == ContractError::NonexistentProjectId(NonexistentProjectIdError(project_id)),
                _ => false,
            },
        },
{
    match msg {
        QueryMsg::ListProjects {  } => match list_projects(state) {
            Ok(resp) => Ok(QueryResponse::Projects(resp)),
            Err(e) => Err(e),
        },
        QueryMsg::ListDonationsForProjectByPatron { project_id, patron } => match
            list_donations_for_project_by_patron(state, project_id, patron) {
            Ok(resp) => Ok(QueryResponse::Donations(resp)),
            Err(e) => Err(e),
        },
    }
}

} // verus!
