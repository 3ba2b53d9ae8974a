//! The monotonic, wraparound-safe clock.
//!
//! Timeouts and re-arm delays are expressed against one monotonic tick
//! counter that wraps around; the wraparound handling lives here, not in
//! the individual tasks. A deadline is considered passed when it lies no
//! more than half the counter's range behind the current instant, so
//! comparisons stay correct across the wrap as long as no delay exceeds
//! half the range.

use vstd::prelude::*;

verus! {

/// Half the tick counter's range: the horizon within which deadline
/// comparisons are meaningful.
pub const TICK_HALF_RANGE: u64 = 0x8000_0000_0000_0000;

/// The instant `delay` ticks after `now`, on the wrapping counter.
pub open spec fn deadline_after(now: u64, delay: u64) -> u64 {
    vstd::wrapping::u64_specs::wrapping_add(now, delay)
}

/// The deadline lies at most half the counter's range behind `now`.
pub open spec fn deadline_passed(now: u64, deadline: u64) -> bool {
    vstd::wrapping::u64_specs::wrapping_sub(now, deadline) < TICK_HALF_RANGE
}

/// Computes the instant `delay` ticks after `now`.
pub fn compute_deadline(now: u64, delay: u64) -> (r: u64)
    ensures
        r == deadline_after(now, delay),
{
    now.wrapping_add(delay)
}

/// Decides whether `deadline` has passed at instant `now`.
pub fn is_due(now: u64, deadline: u64) -> (r: bool)
    ensures
        r == deadline_passed(now, deadline),
{
    now.wrapping_sub(deadline) < TICK_HALF_RANGE
}

/// Deadline comparisons are wraparound-safe: for any instant and any
/// positive delay within the half-range horizon, the fresh deadline has
/// not yet passed, and it has passed once the clock reaches it — wherever
/// in the counter's range the instant lies, including across the wrap.
pub proof fn lemma_deadline_wraparound(now: u64, delay: u64)
    requires
        0 < delay,
        delay <= TICK_HALF_RANGE,
    ensures
        !deadline_passed(now, deadline_after(now, delay)),
        deadline_passed(deadline_after(now, delay), deadline_after(now, delay)),
{
}

/// Once a deadline has been reached, it stays passed for at least the
/// half-range horizon while the clock advances.
pub proof fn lemma_deadline_stays_passed(deadline: u64, elapsed: u64)
    requires
        elapsed < TICK_HALF_RANGE,
    ensures
        deadline_passed(deadline_after(deadline, elapsed), deadline),
{
}

} // verus!
