//! The wall clock.

use crate::protocol::Timestamp;
use vstd::prelude::*;

verus! {

/// Reads the current UTC time with `chrono::Utc::now` and splits it into
/// the seconds since the Unix epoch (`DateTime::timestamp`) and the
/// nanoseconds past that second (`DateTime::timestamp_subsec_nanos`).
///
/// The result is whatever the system clock says, so the contract is
/// silent about it; two calls may differ. `Utc::now` panics when the
/// system clock is set before the Unix epoch.
#[verifier::external_body]
pub(crate) fn utc_now() -> (now: Timestamp) {
    let now = chrono::Utc::now();
    Timestamp { secs: now.timestamp(), nanos: now.timestamp_subsec_nanos() }
}

} // verus!
