//! Wall-clock time, held as microseconds since the Unix epoch.

use vstd::prelude::*;

verus! {

/// Calls `chrono::Utc::now` and returns its `timestamp_micros`.
/// The value is the current time, so the contract states nothing about it.
#[verifier::external_body]
pub(crate) fn now_micros() -> (r: i64) {
    chrono::Utc::now().timestamp_micros()
}

} // verus!
