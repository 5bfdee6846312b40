//! Trusted access to the wall clock.

use vstd::prelude::*;

verus! {

/// Relies on chrono::Utc::now and chrono::DateTime::timestamp: the current
/// Unix timestamp in seconds. The result depends on the wall clock, so
/// nothing is promised of its value.
#[verifier::external_body]
pub fn now_timestamp() -> i64 {
    chrono::Utc::now().timestamp()
}

} // verus!
