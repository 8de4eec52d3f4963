//! The wall clock.

use vstd::prelude::*;

verus! {

/// Calls `chrono::Utc::now` and `DateTime::timestamp`: the seconds since the
/// epoch on this machine's clock, which panics where the clock is set before
/// the epoch. Nothing is claimed of the number.
#[verifier::external_body]
pub(crate) fn unix_now() -> (seconds: i64) {
    chrono::Utc::now().timestamp()
}

} // verus!
