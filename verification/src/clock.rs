//! The wall clock, read in ticks of a sixtieth of a second.

use vstd::prelude::*;
use std::time::{Duration, Instant};
use crate::gravity::TICKS_PER_SECOND;

verus! {

/// Nanoseconds in a second.
pub const NANOS_PER_SECOND: u128 = 1_000_000_000;

/// `std::time::Instant`, a point on the monotonic clock. Nothing of what
/// it holds is visible to specifications.
#[verifier::external_type_specification]
#[verifier::external_body]
pub struct ExInstant(Instant);

/// `Instant::now` reads the clock. Nothing is claimed about the result.
pub assume_specification[ Instant::now ]() -> (now: Instant);

/// `Instant::elapsed` gives the time since the instant was taken, and zero
/// if the clock shows an earlier time than the instant. Nothing is claimed
/// about the result.
pub assume_specification[ Instant::elapsed ](start: &Instant) -> (elapsed: Duration);

/// `Duration::as_nanos` gives a duration in nanoseconds. Nothing is claimed
/// about the result.
pub assume_specification[ Duration::as_nanos ](duration: &Duration) -> (nanos: u128);

/// The number of whole ticks in `nanos` nanoseconds.
pub open spec fn ticks_in(nanos: nat) -> nat {
    nanos * TICKS_PER_SECOND as nat / NANOS_PER_SECOND as nat
}

/// The number of whole ticks in `nanos` nanoseconds, or the largest
/// `usize` if there are more.
pub fn ticks_from_nanos(nanos: u128) -> (ticks: usize)
    ensures
        ticks == (if ticks_in(nanos as nat) > usize::MAX {
            usize::MAX as nat
        } else {
            ticks_in(nanos as nat)
        }),
{
    let seconds: u128 = nanos / NANOS_PER_SECOND;
    let rest: u128 = nanos % NANOS_PER_SECOND;
    assert(seconds * 60 <= u128::MAX / 2) by (nonlinear_arith)
        requires
            seconds == nanos / 1_000_000_000u128,
    ;
    let ticks: u128 = seconds * (TICKS_PER_SECOND as u128) + rest * (TICKS_PER_SECOND as u128)
        / NANOS_PER_SECOND;
    assert(ticks == ticks_in(nanos as nat)) by (nonlinear_arith)
        requires
            seconds == nanos / 1_000_000_000u128,
            rest == nanos % 1_000_000_000u128,
            ticks == seconds * 60 + rest * 60 / 1_000_000_000,
            ticks_in(nanos as nat) == nanos * 60 / 1_000_000_000,
    ;
    if ticks > usize::MAX as u128 {
        usize::MAX
    } else {
        ticks as usize
    }
}

/// The number of ticks since `start`, by the clock.
///
/// The result is the clock's reading and nothing is promised of it: the
/// time that has passed is read with `Instant::elapsed` and
/// `Duration::as_nanos`, and `ticks_from_nanos` turns whatever they give
/// into ticks.
pub fn ticks_since(start: &Instant) -> usize {
    let elapsed = start.elapsed();
    ticks_from_nanos(elapsed.as_nanos())
}

} // verus!
