//! The current time.

use vstd::prelude::*;

use crate::dtos::Timestamp;

verus! {

/// Relies on chrono::Utc::now, read as microseconds by
/// DateTime::timestamp_micros: the system time in UTC. `now` expects the
/// system time not to lie before the Unix epoch, so the value is not negative.
#[verifier::external_body]
pub(crate) fn now() -> (r: Timestamp)
    ensures
        r.micros >= 0,
{
    Timestamp { micros: chrono::Utc::now().timestamp_micros() }
}

} // verus!
