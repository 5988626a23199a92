//! The operations the core exposes: two commands and two queries, each a
//! closed set of variants dispatched by pattern match, and the query
//! response shapes.

use vstd::prelude::*;
use crate::state::{DonationTx, Project};

verus! {

#[derive(Debug)]
pub enum ExecuteMsg {
    CreateProject { name: String },
    Donate { project_id: u128 },
}

pub enum QueryMsg {
    ListProjects {},
    ListDonationsForProjectByPatron { project_id: u128, patron: String },
}

#[derive(Debug, PartialEq, Eq)]
pub struct ListProjectsResp {
    pub projects: Vec<Project>,
}

#[derive(Debug, PartialEq, Eq)]
pub struct ListDonationsForProjectByPatronResp {
    pub donations: Vec<DonationTx>,
}

/// The result of one query, before the host serializes it.
#[derive(Debug, PartialEq, Eq)]
pub enum QueryResponse {
    Projects(ListProjectsResp),
    Donations(ListDonationsForProjectByPatronResp),
}

} // verus!
