//! Trusted access to the wall clock. Both results depend on the moment
//! of the call, so nothing is promised of them; every caller states what
//! holds whatever came back.

use vstd::prelude::*;

verus! {

/// Relies on `chrono::Utc::now` and `DateTime::to_rfc3339`: the current
/// time rendered as an RFC 3339 string. Time-dependent, so no clause.
#[verifier::external_body]
pub(crate) fn now_rfc3339() -> (r: String) {
    chrono::Utc::now().to_rfc3339()
}

/// Relies on `chrono::Utc::now` and `DateTime::timestamp_millis`: the
/// current time in milliseconds since the epoch. Time-dependent, so no
/// clause.
#[verifier::external_body]
pub(crate) fn now_millis() -> (r: i64) {
    chrono::Utc::now().timestamp_millis()
}

} // verus!
