//! The calibrated busy-wait backing the protocol's settle times.
//!
//! The wake protocol requires fixed minimum pauses between interprocessor
//! interrupts.  The delay primitive spins on the processor's time-stamp
//! counter: it reads the counter, computes a deadline a fixed number of ticks
//! ahead, and spins until the counter passes it.  The tick arithmetic is
//! verified here; reading the counter and spinning are hardware work left to
//! the caller.

use vstd::prelude::*;

verus! {

/// Assumed time-stamp-counter frequency, in ticks per second.
///
/// The calibration assumes a fixed 3 GHz counter rather than measuring the
/// real rate; on hardware whose counter runs slower, the realized pauses are
/// proportionally shorter than requested.
pub const TSC_FREQUENCY_HZ: u64 = 3_000_000_000;

/// Time-stamp-counter ticks per microsecond, at the assumed frequency.
pub const TICKS_PER_MICROSECOND: u64 = TSC_FREQUENCY_HZ / 1_000_000;

/// How many counter ticks a delay of `us` microseconds spins for.
pub open spec fn delay_ticks(us: u64) -> int {
    TICKS_PER_MICROSECOND * us
}

/// The counter value at which a delay of `us` microseconds, started when the
/// counter read `start`, is over.
pub open spec fn deadline_spec(start: u64, us: u64) -> int {
    start + delay_ticks(us)
}

/// Computes the time-stamp-counter deadline for a delay of `us` microseconds
/// started at counter value `start`.
pub fn delay_deadline(start: u64, us: u64) -> (deadline: u64)
    requires
        deadline_spec(start, us) <= u64::MAX,
    ensures
        deadline == deadline_spec(start, us),
{
    start + TICKS_PER_MICROSECOND * us
}

/// Decides whether a delay with the given deadline is over, given a fresh
/// counter reading.
pub fn delay_elapsed(now: u64, deadline: u64) -> (done: bool)
    ensures
        done == (now >= deadline),
{
    now >= deadline
}

/// A longer requested delay never spins for fewer ticks: the tick budget is
/// monotone in the requested duration, so `delay(d2)` waits at least as long
/// as `delay(d1)` whenever `d2 >= d1`.
pub proof fn lemma_delay_monotonic(d1: u64, d2: u64)
    requires
        d1 <= d2,
    ensures
        delay_ticks(d1) <= delay_ticks(d2),
{
    assert(TICKS_PER_MICROSECOND * d1 <= TICKS_PER_MICROSECOND * d2)
        by (nonlinear_arith)
        requires d1 <= d2
    ;
}

/// Equal requested durations spin for equal tick budgets, whatever the
/// counter read when they started: repeated delays of the same duration never
/// shrink.
pub proof fn lemma_delay_uniform(start1: u64, start2: u64, us: u64)
    ensures
        deadline_spec(start1, us) - start1 == deadline_spec(start2, us) - start2,
{
}

} // verus!
