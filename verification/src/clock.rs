//! The one place the library reads the wall clock.  Timestamps are carried
//! everywhere else as plain milliseconds since the Unix epoch, so that all
//! logic over them is verified.

use vstd::prelude::*;

verus! {

/// Relies on chrono's `Utc::now` and `DateTime::timestamp_millis`: the current
/// wall-clock time as milliseconds since the Unix epoch.  The value depends on
/// the moment of the call, so nothing is promised of it; every caller states
/// what holds whatever time comes back.
#[verifier::external_body]
pub fn now_millis() -> i64 {
    chrono::Utc::now().timestamp_millis()
}

} // verus!
