//! Global guarantees of the ledger, proved once over the mathematical
//! model: the fee split conserves value, the tier rule is exactly the
//! threshold comparison, the registry grows by exactly the created
//! projects in order, and the journal accumulates a key's donations
//! verbatim.

use vstd::prelude::*;
use crate::contract::THRESHOLD;
use crate::execute::{creator_amount, operator_amount};
use crate::state::{
    history_of, lemma_history_push, spec_create, spec_record, CoinV, EntryV, ProjectV, StateV,
};

verus! {

/// Split conservation: for every amount and threshold, the creator's
/// and the operator's shares are nonnegative and sum exactly to the
/// amount. No value is created or destroyed by the split.
pub proof fn lemma_split_conservation(a: int, threshold: int)
    requires
        0 <= a,
    ensures
        creator_amount(a, threshold) + operator_amount(a, threshold) == a,
        0 <= creator_amount(a, threshold) <= a,
        0 <= operator_amount(a, threshold) <= a,
{
}

/// Threshold tiers: at or below the threshold the creator's share is
/// exactly 90% rounded down; above it, exactly 95% rounded down. The
/// boundary amount itself falls in the 90% tier.
pub proof fn lemma_threshold_tiers(a: int)
    requires
        0 <= a,
    ensures
        a <= THRESHOLD as int ==> creator_amount(a, THRESHOLD as int) == a * 9 / 10,
        a > THRESHOLD as int ==> creator_amount(a, THRESHOLD as int) == a * 19 / 20,
{
}

/// The ledger after a sequence of successful project creations, one per
/// entry of `calls`, applied in order.
pub open spec fn spec_create_all(s: StateV, calls: Seq<ProjectV>) -> StateV
    decreases calls.len(),
{
    if calls.len() == 0 {
        s
    } else {
        spec_create(spec_create_all(s, calls.drop_last()), calls.last().name, calls.last().creator)
    }
}

/// Registry growth: after the creations in `calls` the registry holds
/// exactly the old projects followed by the created ones, in creation
/// order — so the entry made for the i-th call carries that call's
/// name and creator — the counter has moved by their number, and the
/// journal and the operator are untouched.
pub proof fn lemma_registry_growth(s: StateV, calls: Seq<ProjectV>)
    ensures
        spec_create_all(s, calls).projects == s.projects + calls,
        forall|i: int|
            0 <= i < calls.len() ==> spec_create_all(s, calls).projects[s.projects.len() + i]
                == calls[i],
        spec_create_all(s, calls).project_count == s.project_count + calls.len(),
        spec_create_all(s, calls).donations == s.donations,
        spec_create_all(s, calls).author == s.author,
        s.wf() ==> spec_create_all(s, calls).wf(),
    decreases calls.len(),
{
    if calls.len() == 0 {
        assert(s.projects + calls =~= s.projects);
    } else {
        lemma_registry_growth(s, calls.drop_last());
        assert(s.projects + calls =~= (s.projects + calls.drop_last()).push(calls.last()));
    }
}

/// The ledger after a sequence of successful donations of the fund
/// vectors `txs`, all from `patron` to `project_id`, applied in order.
pub open spec fn spec_donate_all(
    s: StateV,
    project_id: int,
    patron: Seq<char>,
    txs: Seq<Seq<CoinV>>,
) -> StateV
    decreases txs.len(),
{
    if txs.len() == 0 {
        s
    } else {
        spec_record(spec_donate_all(s, project_id, patron, txs.drop_last()), project_id, patron, txs.last())
    }
}

/// History accumulation: after the donations in `txs` the history of
/// `(project_id, patron)` is the old history followed by exactly those
/// fund vectors, verbatim and in call order; every other key's history,
/// the registry and the operator are untouched.
pub proof fn lemma_history_accumulation(
    s: StateV,
    project_id: int,
    patron: Seq<char>,
    txs: Seq<Seq<CoinV>>,
)
    ensures
        history_of(spec_donate_all(s, project_id, patron, txs).donations, project_id, patron)
            == history_of(s.donations, project_id, patron) + txs,
        forall|p: int, q: Seq<char>|
            !(p == project_id && q == patron) ==> #[trigger] history_of(
                spec_donate_all(s, project_id, patron, txs).donations,
                p,
                q,
            ) == history_of(s.donations, p, q),
        spec_donate_all(s, project_id, patron, txs).projects == s.projects,
        spec_donate_all(s, project_id, patron, txs).project_count == s.project_count,
        spec_donate_all(s, project_id, patron, txs).author == s.author,
        s.wf() ==> spec_donate_all(s, project_id, patron, txs).wf(),
    decreases txs.len(),
{
    if txs.len() == 0 {
        assert(history_of(s.donations, project_id, patron) + txs =~= history_of(
            s.donations,
            project_id,
            patron,
        ));
    } else {
        lemma_history_accumulation(s, project_id, patron, txs.drop_last());
        let prior = spec_donate_all(s, project_id, patron, txs.drop_last());
        let e = EntryV { project_id, patron, funds: txs.last() };
        lemma_history_push(prior.donations, e, project_id, patron);
        assert(history_of(s.donations, project_id, patron) + txs =~= (history_of(
            s.donations,
            project_id,
            patron,
        ) + txs.drop_last()).push(txs.last()));
        assert forall|p: int, q: Seq<char>| !(p == project_id && q == patron) implies #[trigger] history_of(
            spec_donate_all(s, project_id, patron, txs).donations,
            p,
            q,
        ) == history_of(s.donations, p, q) by {
            lemma_history_push(prior.donations, e, p, q);
        }
    }
}

} // verus!
