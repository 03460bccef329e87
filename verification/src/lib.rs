//! Identities, roles, permissions and their audit trail, written without I/O.
//!
//! Every operation is a small machine: it names the next request to the
//! document store or the token service, and is resumed with the reply. The
//! caller performs the requests; the library decides.
//!
//! `protocol` holds the requests and replies, `repository` the entities and
//! what is asked of the store for them, `services` the coupling of every
//! operation to the audit ledger, and `web` the gateway. `storage` models a
//! store that answers truthfully, and `guarantees` proves against it what
//! the operations achieve.

pub mod configuration;
pub mod guarantees;
pub mod password;
pub mod protocol;
pub mod repository;
pub mod services;
pub mod stamp;
pub mod storage;
pub mod web;
