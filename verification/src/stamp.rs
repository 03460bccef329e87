//! Fresh identifiers and timestamps.

use vstd::prelude::*;

verus! {

/// Length of a generated identifier: 32 hexadecimal digits and 4 hyphens.
pub const ID_LENGTH: usize = 36;

/// A new random identifier.
///
/// Calls `uuid::Uuid::new_v4` and formats the value with its `Display`
/// implementation, which writes the hyphenated lower-case form. The contract
/// claims only the length of that form; which identifier comes back is left
/// open.
#[verifier::external_body]
pub(crate) fn fresh_id() -> (id: String)
    ensures
        id@.len() == ID_LENGTH,
{
    uuid::Uuid::new_v4().to_string()
}

/// The current time as an RFC 3339 string.
///
/// Reads `std::time::SystemTime::now`, converts it to a
/// `chrono::DateTime<chrono::Utc>` and calls `to_rfc3339` on it. Nothing is
/// claimed of the text.
#[verifier::external_body]
pub(crate) fn timestamp() -> (now: String) {
    let now: chrono::DateTime<chrono::Utc> = std::time::SystemTime::now().into();
    now.to_rfc3339()
}

} // verus!
