//! The core's error type. The only domain error the accounting core can
//! raise is a reference to a project id that has never been assigned;
//! failures of the surrounding host (storage, payment validation) stay
//! outside the core and are represented by the host's own error type.

use vstd::prelude::*;

verus! {

/// An operation referenced a `project_id` that has never been assigned.
#[derive(Debug, PartialEq, Eq)]
pub struct NonexistentProjectIdError(pub u128);

#[derive(Debug, PartialEq, Eq)]
pub enum ContractError {
    NonexistentProjectId(NonexistentProjectIdError),
}

pub type ContractResult<T> = Result<T, ContractError>;

} // verus!
