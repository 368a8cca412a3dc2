//! The wall clock, through chrono.

use vstd::prelude::*;

verus! {

/// Relies on chrono's `Utc::now` and `DateTime::to_rfc3339`: the current UTC
/// time written as RFC 3339 text. Nothing is promised of its value: it is the
/// time of the call.
#[verifier::external_body]
pub(crate) fn utc_now_rfc3339() -> String {
    chrono::Utc::now().to_rfc3339()
}

} // verus!
