//! The trusted boundary to the host: clock readings and fresh identifiers.
//! These are the only values the service takes from its environment; every
//! routing decision is a verified function of them.

use vstd::prelude::*;

verus! {

/// Relies on `uuid::Uuid::new_v4` and its `Display` form: a hyphenated
/// lowercase-hex UUID, 36 characters of hyphens, digits and `a`–`f`.
#[verifier::external_body]
pub(crate) fn fresh_id() -> (r: Vec<u8>)
    ensures
        r@.len() == 36,
        forall|i: int|
            0 <= i < r@.len() ==> (r@[i] == 45 || (48 <= r@[i] <= 57) || (97 <= r@[i] <= 102)),
{
    uuid::Uuid::new_v4().to_string().into_bytes()
}

/// Relies on `chrono::Utc::now().to_rfc3339()`: an RFC 3339 timestamp, drawn
/// from printable ASCII with no quote and no backslash. Its value depends on
/// the clock, so nothing more is assumed of it.
#[verifier::external_body]
pub(crate) fn now_rfc3339() -> (r: Vec<u8>)
    ensures
        forall|i: int| 0 <= i < r@.len() ==> 32 <= r@[i] < 127 && r@[i] != 34 && r@[i] != 92,
{
    chrono::Utc::now().to_rfc3339().into_bytes()
}

/// Relies on `chrono::Utc::now().timestamp()`: the clock reading in whole
/// seconds since the epoch. Nothing is assumed of its value.
#[verifier::external_body]
pub(crate) fn now_timestamp() -> i64 {
    chrono::Utc::now().timestamp()
}

} // verus!
