use vstd::prelude::*;
use std::time::{Duration, Instant};

verus! {

/// A reading of the monotonic clock of std. Verified code carries such a
/// value and never looks inside.
#[verifier::external_type_specification]
#[verifier::external_body]
pub struct ExInstant(Instant);

/// `Instant::now` reads the monotonic clock. The reading depends on when the
/// call is made, so nothing is claimed of it.
pub assume_specification[ Instant::now ]() -> (reading: Instant);

/// `Instant::elapsed` measures the time from the given reading until the call.
/// The result depends on when the call is made, so nothing is claimed of it.
pub assume_specification[ Instant::elapsed ](origin: &Instant) -> (span: Duration);

/// `Duration::as_nanos` gives a length of time in whole nanoseconds. Verified
/// code uses the number as a clock reading of unknown value, so nothing is
/// claimed of it.
pub assume_specification[ Duration::as_nanos ](span: &Duration) -> (nanos: u128);

/// The nanoseconds that have passed since `origin`, held at the largest `u64`
/// where they exceed it. The reading depends on when the call is made.
pub(crate) fn nanos_since(origin: &Instant) -> u64 {
    let nanos: u128 = origin.elapsed().as_nanos();
    clock_reading(nanos)
}

/// A count of nanoseconds as a reading of the player's clock: the count
/// itself, or the largest `u64` where the count exceeds it.
pub open spec fn reading_of(nanos: u128) -> u64 {
    if nanos > u64::MAX {
        u64::MAX
    } else {
        nanos as u64
    }
}

/// Turns a count of nanoseconds into a reading of the player's clock.
pub fn clock_reading(nanos: u128) -> (r: u64)
    ensures
        r == reading_of(nanos),
{
    if nanos > u64::MAX as u128 {
        u64::MAX
    } else {
        nanos as u64
    }
}

} // verus!
