//! High-resolution monotonic timing.
//!
//! A `MonotonicClock` measures nanoseconds elapsed since the clock was
//! created. The raw readings come from the platform's monotonic wall-clock
//! primitive; on top of them the clock enforces, by construction, that
//! successive readings never decrease. Architectures that expose a
//! free-running tick counter convert ticks to nanoseconds with
//! `ticks_to_nanos`.

use vstd::prelude::*;
use vstd::arithmetic::mul::lemma_mul_inequality;

verus! {

/// Declares the standard library's opaque monotonic time-point type.
#[verifier::external_type_specification]
#[verifier::external_body]
pub struct ExInstant(std::time::Instant);

/// Relies on std::time::Instant::now: a reading of the monotonic clock.
/// Nothing is promised of the value; monotonicity is enforced in verified
/// code by `MonotonicClock::now_nanos`.
pub assume_specification[ std::time::Instant::now ]() -> std::time::Instant;

/// Relies on std::time::Instant::elapsed: the time since this instant, as a
/// duration. Nothing numeric can be promised of a clock reading.
pub assume_specification[ std::time::Instant::elapsed ](
    i: &std::time::Instant,
) -> core::time::Duration;

/// Relies on std::time::Duration::as_nanos: the total nanoseconds of the
/// duration. The duration itself is opaque, so nothing more is stated.
pub assume_specification[ core::time::Duration::as_nanos ](
    d: &core::time::Duration,
) -> u128;

/// A per-run monotonic nanosecond clock.
///
/// `last` holds the most recent reading handed out; `now_nanos` never
/// returns less than it, whatever the underlying time source reports.
pub struct MonotonicClock {
    origin: std::time::Instant,
    last: u128,
}

impl MonotonicClock {
    /// The most recent reading this clock has handed out.
    pub closed spec fn last_reading(self) -> u128 {
        self.last
    }

    /// Starts a clock whose zero reference is the moment of the call.
    pub fn new() -> (r: Self)
        ensures
            r.last_reading() == 0,
    {
        MonotonicClock { origin: std::time::Instant::now(), last: 0 }
    }

    /// Nanoseconds since this clock was created. Readings never decrease:
    /// each call returns at least the value of the previous call.
    pub fn now_nanos(&mut self) -> (r: u128)
        ensures
            r >= old(self).last_reading(),
            final(self).last_reading() == r,
    {
        let elapsed = self.origin.elapsed().as_nanos();
        if elapsed > self.last {
            self.last = elapsed;
        }
        self.last
    }
}

/// Converts a count of hardware counter ticks into nanoseconds, given the
/// counter frequency in ticks per second.
pub fn ticks_to_nanos(ticks: u64, freq_hz: u64) -> (r: u128)
    requires
        freq_hz >= 1,
    ensures
        r == (ticks * 1_000_000_000) / freq_hz as int,
{
    proof {
        lemma_mul_inequality(ticks as int, u64::MAX as int, 1_000_000_000);
    }
    (ticks as u128 * 1_000_000_000) / (freq_hz as u128)
}

} // verus!
