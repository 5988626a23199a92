//! A deterministic ledger for crowdfunding-style projects: a project
//! registry, a per-(project, patron) donation history, and a fee-split
//! engine that divides every donation between the project's creator and
//! the platform operator under a threshold-based percentage rule.
//!
//! The crate holds only the accounting core: pure state transitions over
//! an in-memory snapshot of the ledger. Persistence, message
//! (de)serialization and the host runtime live outside it.

pub mod contract;
pub mod error;
pub mod execute;
pub mod laws;
pub mod msg;
pub mod query;
pub mod state;
