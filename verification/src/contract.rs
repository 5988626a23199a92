//! Initialization of the ledger and the protocol constant of the fee
//! schedule.

use vstd::prelude::*;
use crate::state::{MessageInfo, State, StateV};

verus! {

/// The fixed amount, in the funds' base unit, separating the 90% fee
/// tier from the 95% one. Applied per denominated entry of a donation.
pub const THRESHOLD: u128 = 10_000;

/// Sets up an empty ledger. The sender of the instantiation request
/// becomes the operator: the identity that receives the platform's fee
/// share of every donation, fixed here once and never changed.
pub fn instantiate(info: MessageInfo) -> (s: State)
    ensures
        s.wf(),
        s@ == (StateV {
            project_count: 0,
            projects: Seq::empty(),
            donations: Seq::empty(),
            author: info.sender@,
        }),
{
    let s = State {
        project_count: 0,
        projects: Vec::new(),
        donations: Vec::new(),
        author: info.sender,
    };
    assert(s@.projects =~= Seq::empty());
    assert(s@.donations =~= Seq::empty());
    s
}

} // verus!
