//! The wall clock.

use vstd::prelude::*;

verus! {

/// Calls `chrono::Utc::now` and gives the time as milliseconds since the
/// Unix epoch (`DateTime::timestamp_millis`). The result depends on the
/// machine's clock, so nothing is stated of it. `Utc::now` gives up when the
/// clock reads a time before the epoch.
#[verifier::external_body]
pub(crate) fn utc_now_millis() -> (millis: i64)
{
    chrono::Utc::now().timestamp_millis()
}

/// The current time in milliseconds since the Unix epoch.
pub fn now_millis() -> (millis: i64) {
    utc_now_millis()
}

} // verus!
