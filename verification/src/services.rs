//! The services: every operation of a repository, coupled to the ledger.

pub mod audit;
pub mod permission;
pub mod role;
pub mod user;
