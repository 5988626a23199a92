//! The command side of the core: project creation, the fee-split engine,
//! and the donation orchestrator that composes registry lookup, history
//! recording and transfer construction into one atomic operation.

use vstd::prelude::*;
use crate::contract::THRESHOLD;
use crate::error::{ContractError, ContractResult, NonexistentProjectIdError};
use crate::msg::ExecuteMsg;
use crate::state::{
    clone_coins, spec_create, spec_record, Coin, CoinV, DonationEntry, DonationTx, EntryV,
    MessageInfo, Project, ProjectV, State,
};

verus! {

/// The creator's share of one amount: 90% below or at the threshold,
/// 95% above it, always rounded down.
pub open spec fn creator_amount(a: int, threshold: int) -> int {
    if a <= threshold {
        a * 9 / 10
    } else {
        a * 19 / 20
    }
}

/// The operator's share of one amount: whatever the creator's share
/// leaves, so that the two shares sum exactly to the amount.
pub open spec fn operator_amount(a: int, threshold: int) -> int {
    a - creator_amount(a, threshold)
}

/// The creator's side of a fee split, entry by entry.
pub open spec fn creator_coins(funds: Seq<CoinV>, threshold: int) -> Seq<CoinV> {
    funds.map_values(
        |c: CoinV| CoinV { denom: c.denom, amount: creator_amount(c.amount, threshold) },
    )
}

/// The operator's side of a fee split, entry by entry.
pub open spec fn operator_coins(funds: Seq<CoinV>, threshold: int) -> Seq<CoinV> {
    funds.map_values(
        |c: CoinV| CoinV { denom: c.denom, amount: operator_amount(c.amount, threshold) },
    )
}

/// The creator's share of one amount, computed without widening: the
/// quotient is split off first, so `amount * 19` is never formed and no
/// amount can overflow the arithmetic.
fn creator_part(amount: u128, threshold: u128) -> (r: u128)
    ensures
        r as int == creator_amount(amount as int, threshold as int),
{
    if amount <= threshold {
        amount / 10 * 9 + amount % 10 * 9 / 10
    } else {
        amount / 20 * 19 + amount % 20 * 19 / 20
    }
}

/// A donation's funds divided between the two recipients, in the shape
/// of the donated funds: one entry per donated entry, zero amounts kept.
pub struct SplitOutput {
    pub for_project_creator: Vec<Coin>,
    pub for_contract_author: Vec<Coin>,
}

/// Divides each entry of `funds` independently between the project's
/// creator and the contract's author under the threshold rule; for every
/// denomination the two sides sum exactly to the donated amount.
pub fn split_by_recipient(funds: Vec<Coin>, threshold: u128) -> (out: SplitOutput)
    ensures
        out.for_project_creator.deep_view() == creator_coins(funds.deep_view(), threshold as int),
        out.for_contract_author.deep_view() == operator_coins(funds.deep_view(), threshold as int),
{
    let ghost fundsv: Seq<CoinV> = funds.deep_view();
    let mut for_project_creator: Vec<Coin> = Vec::new();
    let mut for_contract_author: Vec<Coin> = Vec::new();
    let mut i: usize = 0;
    while i < funds.len()
        invariant
            i <= funds.len(),
            fundsv == funds.deep_view(),
            for_project_creator.deep_view() =~= creator_coins(fundsv, threshold as int).take(
                i as int,
            ),
            for_contract_author.deep_view() =~= operator_coins(fundsv, threshold as int).take(
                i as int,
            ),
        decreases funds.len() - i,
    {
        let coin = &funds[i];
        let creator_share = creator_part(coin.amount, threshold);
        assert(creator_share <= coin.amount);
        let ghost prev_creator = for_project_creator.deep_view();
        let ghost prev_author = for_contract_author.deep_view();
        for_project_creator.push(Coin { denom: coin.denom.clone(), amount: creator_share });
        for_contract_author.push(
            Coin { denom: coin.denom.clone(), amount: coin.amount - creator_share },
        );
        proof {
            let t = threshold as int;
            assert(for_project_creator.deep_view() =~= prev_creator.push(
                CoinV { denom: coin.denom@, amount: creator_share as int },
            ));
            assert(for_contract_author.deep_view() =~= prev_author.push(
                CoinV { denom: coin.denom@, amount: coin.amount - creator_share },
            ));
            assert(creator_coins(fundsv, t)[i as int] == CoinV {
                denom: coin.denom@,
                amount: creator_share as int,
            });
            assert(operator_coins(fundsv, t)[i as int] == CoinV {
                denom: coin.denom@,
                amount: coin.amount - creator_share,
            });
            assert(creator_coins(fundsv, t).take(i + 1) =~= creator_coins(fundsv, t).take(
                i as int,
            ).push(creator_coins(fundsv, t)[i as int]));
            assert(operator_coins(fundsv, t).take(i + 1) =~= operator_coins(fundsv, t).take(
                i as int,
            ).push(operator_coins(fundsv, t)[i as int]));
        }
        i = i + 1;
    }
    assert(creator_coins(fundsv, threshold as int).take(funds.len() as int) =~= creator_coins(
        fundsv,
        threshold as int,
    ));
    assert(operator_coins(fundsv, threshold as int).take(funds.len() as int) =~= operator_coins(
        fundsv,
        threshold as int,
    ));
    SplitOutput { for_project_creator, for_contract_author }
}

/// One outbound transfer instruction, handed to the host for execution:
/// the core itself moves no funds.
#[derive(Debug, PartialEq, Eq)]
pub struct Transfer {
    pub to_address: String,
    pub amount: Vec<Coin>,
}

/// Mathematical view of a [`Transfer`].
#[verifier::ext_equal]
pub ghost struct TransferV {
    pub to_address: Seq<char>,
    pub amount: Seq<CoinV>,
}

impl View for Transfer {
    type V = TransferV;

    open spec fn view(&self) -> TransferV {
        TransferV { to_address: self.to_address@, amount: self.amount.deep_view() }
    }
}

impl DeepView for Transfer {
    type V = TransferV;

    open spec fn deep_view(&self) -> TransferV {
        self@
    }
}

/// The entries of a fund vector whose amount is not zero, in order. A
/// zero-value transfer entry is a no-op and is never emitted.
pub open spec fn nonzero_coins(s: Seq<CoinV>) -> Seq<CoinV>
    decreases s.len(),
{
    if s.len() == 0 {
        Seq::empty()
    } else {
        let prefix = nonzero_coins(s.drop_last());
        if s.last().amount != 0 {
            prefix.push(s.last())
        } else {
            prefix
        }
    }
}

/// The transfer instructions owed for a split: the creator's nonzero
/// entries, then the author's, each instruction omitted entirely when
/// its side holds nothing but zeros.
pub open spec fn spec_transfers(
    creator: Seq<char>,
    creator_funds: Seq<CoinV>,
    author: Seq<char>,
    author_funds: Seq<CoinV>,
) -> Seq<TransferV> {
    let c = nonzero_coins(creator_funds);
    let a = nonzero_coins(author_funds);
    let to_creator: Seq<TransferV> = if c.len() == 0 {
        Seq::empty()
    } else {
        seq![TransferV { to_address: creator, amount: c }]
    };
    let to_author: Seq<TransferV> = if a.len() == 0 {
        Seq::empty()
    } else {
        seq![TransferV { to_address: author, amount: a }]
    };
    to_creator + to_author
}

/// Copies the entries of `coins` whose amount is not zero, in order.
fn nonzero_part(coins: &Vec<Coin>) -> (r: Vec<Coin>)
    ensures
        r.deep_view() == nonzero_coins(coins.deep_view()),
{
    let ghost coinsv: Seq<CoinV> = coins.deep_view();
    let mut r: Vec<Coin> = Vec::new();
    let mut i: usize = 0;
    while i < coins.len()
        invariant
            i <= coins.len(),
            coinsv == coins.deep_view(),
            r.deep_view() =~= nonzero_coins(coinsv.take(i as int)),
        decreases coins.len() - i,
    {
        let coin = &coins[i];
        proof {
            assert(coinsv.take(i + 1).drop_last() =~= coinsv.take(i as int));
            assert(coinsv.take(i + 1).last() == coinsv[i as int]);
        }
        if coin.amount != 0 {
            r.push(Coin { denom: coin.denom.clone(), amount: coin.amount });
            assert(r.deep_view() =~= nonzero_coins(coinsv.take(i as int)).push(coinsv[i as int]));
        }
        i = i + 1;
    }
    assert(coinsv.take(coins.len() as int) =~= coinsv);
    r
}

impl SplitOutput {
    /// Builds the at-most-two transfer instructions for this split: the
    /// creator's share to the project's creator, the rest to the
    /// contract's author, zero amounts and empty instructions omitted.
    pub fn into_transfers(self, project_creator: String, contract_author: String) -> (msgs: Vec<
        Transfer,
    >)
        ensures
            msgs.deep_view() == spec_transfers(
                project_creator@,
                self.for_project_creator.deep_view(),
                contract_author@,
                self.for_contract_author.deep_view(),
            ),
    {
        let mut msgs: Vec<Transfer> = Vec::new();
        let creator_entries = nonzero_part(&self.for_project_creator);
        if creator_entries.len() > 0 {
            msgs.push(Transfer { to_address: project_creator, amount: creator_entries });
        }
        let author_entries = nonzero_part(&self.for_contract_author);
        if author_entries.len() > 0 {
            msgs.push(Transfer { to_address: contract_author, amount: author_entries });
        }
        assert(msgs.deep_view() =~= spec_transfers(
            project_creator@,
            self.for_project_creator.deep_view(),
            contract_author@,
            self.for_contract_author.deep_view(),
        ));
        msgs
    }
}

/// Registers a new project under the next free id and returns that id.
/// The registry entry and the counter move together: the ledger stays
/// well-formed and nothing else changes.
pub fn create_project(state: &mut State, name: String, creator: String) -> (id: u128)
    requires
        old(state).wf(),
    ensures
        final(state).wf(),
        id as int == old(state)@.project_count,
        final(state)@ == spec_create(old(state)@, name@, creator@),
{
    // Reading the length pins the counter below usize::MAX, so the bump
    // below cannot overflow.
    let _len: usize = state.projects.len();
    let id = state.project_count;
    let ghost prev = state.projects.deep_view();
    state.projects.push(Project::new(name, creator));
    state.project_count = id + 1;
    assert(state.projects.deep_view() =~= prev.push(spec_create(old(state)@, name@, creator@).projects.last()));
    assert(state@ =~= spec_create(old(state)@, name@, creator@));
    id
}

/// Appends one raw, pre-fee donation record to the journal under the
/// key `(project_id, patron)`. The history is an audit trail of what
/// was donated, not of what was paid out.
fn record_donation(state: &mut State, info: &MessageInfo, project_id: u128)
    requires
        old(state).wf(),
    ensures
        final(state).wf(),
        final(state)@ == spec_record(
            old(state)@,
            project_id as int,
            info.sender@,
            info.funds.deep_view(),
        ),
{
    let entry = DonationEntry {
        project_id,
        patron: info.sender.clone(),
        tx: DonationTx(clone_coins(&info.funds)),
    };
    let ghost prev = state.donations.deep_view();
    let ghost entryv = entry@;
    state.donations.push(entry);
    assert(state.donations.deep_view() =~= prev.push(entryv));
    assert(state@ =~= spec_record(
        old(state)@,
        project_id as int,
        info.sender@,
        info.funds.deep_view(),
    ));
}

/// The donation orchestrator: checks that the project exists, records
/// the raw donation, splits the funds under the fixed threshold, and
/// returns the transfer instructions owed. A donation to an unknown
/// project fails before any state changes: the operation is
/// all-or-nothing.
pub fn donate(state: &mut State, info: MessageInfo, project_id: u128) -> (r: ContractResult<
    Vec<Transfer>,
>)
    requires
        old(state).wf(),
    ensures
        final(state).wf(),
        match r {
            Ok(msgs) => {
                &&& (project_id as int) < old(state)@.project_count
                &&& final(state)@ == spec_record(
                    old(state)@,
                    project_id as int,
                    info.sender@,
                    info.funds.deep_view(),
                )
                &&& msgs.deep_view() == spec_transfers(
                    old(state)@.projects[project_id as int].creator,
                    creator_coins(info.funds.deep_view(), THRESHOLD as int),
                    old(state)@.author,
                    operator_coins(info.funds.deep_view(), THRESHOLD as int),
                )
            },
            Err(e) => {
                &&& (project_id as int) >= old(state)@.project_count
                &&& e == ContractError::NonexistentProjectId(NonexistentProjectIdError(project_id))
                &&& *final(state) == *old(state)
            },
        },
{
    // Reading the length pins every assigned id below usize::MAX, so the
    // cast of a known id to an index is exact.
    let _len: usize = state.projects.len();
    if project_id >= state.project_count {
        return Err(ContractError::NonexistentProjectId(NonexistentProjectIdError(project_id)));
    }
    let idx = project_id as usize;
    let project_creator = state.projects[idx].creator.clone();
    record_donation(state, &info, project_id);
    let contract_author = state.author.clone();
    let out = split_by_recipient(info.funds, THRESHOLD);
    Ok(out.into_transfers(project_creator, contract_author))
}

/// Dispatches one inbound command: project creation appends to the
/// registry and owes no transfers; a donation runs the orchestrator.
pub fn execute(state: &mut State, info: MessageInfo, msg: ExecuteMsg) -> (r: ContractResult<
    Vec<Transfer>,
>)
    requires
        old(state).wf(),
    ensures
        final(state).wf(),
        match msg {
            ExecuteMsg::CreateProject { name } => {
                &&& r matches Ok(msgs) && msgs.deep_view() == Seq::<TransferV>::empty()
                &&& final(state)@ == spec_create(old(state)@, name@, info.sender@)
            },
            ExecuteMsg::Donate { project_id } => match r {
                Ok(msgs) => {
                    &&& (project_id as int) < old(state)@.project_count
                    &&& final(state)@ == spec_record(
                        old(state)@,
                        project_id as int,
                        info.sender@,
                        info.funds.deep_view(),
                    )
                    &&& msgs.deep_view() == spec_transfers(
                        old(state)@.projects[project_id as int].creator,
                        creator_coins(info.funds.deep_view(), THRESHOLD as int),
                        old(state)@.author,
                        operator_coins(info.funds.deep_view(), THRESHOLD as int),
                    )
                },
                Err(e) => {
                    &&& (project_id as int) >= old(state)@.project_count
                    &&& e == ContractError::NonexistentProjectId(
                        NonexistentProjectIdError(project_id),
                    )
                    &&& *final(state) == *old(state)
                },
            },
        },
{
    match msg {
        ExecuteMsg::CreateProject { name } => {
            let creator = info.sender;
            create_project(state, name, creator);
            let msgs: Vec<Transfer> = Vec::new();
            assert(msgs.deep_view() =~= Seq::<TransferV>::empty());
            Ok(msgs)
        },
        ExecuteMsg::Donate { project_id } => donate(state, info, project_id),
    }
}

} // verus!
