//! The entities and the repositories that keep them in the document store.

pub mod audit;
pub mod permission;
pub mod role;
pub mod user;
