//! What the operations achieve against a store that answers truthfully.

pub mod assembly;
pub mod confinement;
pub mod ledger;
pub mod login;
pub mod permission_names;
pub mod permissions;
pub mod registration;
pub mod role_names;
pub mod session;
pub mod uniqueness;
pub mod users;
