//! The one clock access the library makes: the current time rendered for
//! the timestamp columns.
use vstd::prelude::*;

verus! {

/// Relies on chrono's `Utc::now` and `to_rfc3339`: the current wall-clock
/// time in RFC 3339 form. The value depends on the clock, so nothing is
/// promised of it; callers that need an exact contract take the timestamp
/// as an argument instead.
#[verifier::external_body]
pub fn now_rfc3339() -> String {
    chrono::Utc::now().to_rfc3339()
}

} // verus!
