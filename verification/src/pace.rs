//! Pacing: deciding how long the scheduler should wait before firing the
//! next request, given the time elapsed since the run started and the number
//! of requests already fired.
//!
//! All durations are in nanoseconds.

use vstd::prelude::*;

verus! {

/// A constant-rate pace: `freq` events for every `per` nanoseconds.
///
/// `freq == 0` or `per == 0` degenerates to "fire immediately, forever".
#[derive(Clone, Copy, Debug, PartialEq, Eq, Structural)]
pub struct Rate {
    pub freq: u64,
    /// Length of the pacing interval, in nanoseconds.
    pub per: u64,
}

impl Default for Rate {
    /// One event per second.
    fn default() -> (r: Self)
        ensures
            r == (Rate { freq: 1, per: 1_000_000_000 }),
    {
        Rate { freq: 1, per: 1_000_000_000 }
    }
}

/// Number of events that should have occurred by `elapsed` at the target
/// rate: `freq` events for each whole `per` interval that has passed.
pub open spec fn expected_hits(freq: u64, per: u64, elapsed: u64) -> int
    recommends
        per > 0,
{
    freq * (elapsed as int / per as int)
}

/// Scheduled timestamp of the `(hits + 1)`-th event, in nanoseconds:
/// the `k`-th event is due at `k * per / freq`, so the schedule divides
/// `per` evenly among `freq` events without accumulating rounding drift.
pub open spec fn next_due(freq: u64, per: u64, hits: u64) -> int
    recommends
        freq > 0,
{
    ((hits as int + 1) * per as int) / freq as int
}

/// The wait that `pace` returns: zero when the rate is degenerate or the
/// caller is behind schedule, otherwise the gap between `elapsed` and the
/// next scheduled event.
pub open spec fn pace_wait(freq: u64, per: u64, elapsed: u64, hits: u64) -> int {
    if freq == 0 || per == 0 {
        0
    } else if hits < expected_hits(freq, per, elapsed) {
        0
    } else {
        next_due(freq, per, hits) - elapsed
    }
}

/// On the caught-up path the next scheduled timestamp must lie between
/// `elapsed` and `u64::MAX`, or the wait cannot be represented as a
/// (non-negative, 64-bit) number of nanoseconds.
pub open spec fn pace_fits(freq: u64, per: u64, elapsed: u64, hits: u64) -> bool {
    (freq > 0 && per > 0 && hits >= expected_hits(freq, per, elapsed)) ==> (elapsed
        <= next_due(freq, per, hits) && next_due(freq, per, hits) <= u64::MAX)
}

impl Rate {
    /// Decide how long to wait before the next dispatch, and whether to
    /// stop. A constant rate never asks to stop.
    ///
    /// The result is a function of the arguments alone; for inputs the
    /// schedule cannot represent (see `pace_fits`), use `try_pace`.
    pub fn pace(&self, elapsed: u64, hits: u64) -> (r: (u64, bool))
        requires
            pace_fits(self.freq, self.per, elapsed, hits),
        ensures
            r.1 == false,
            r.0 == pace_wait(self.freq, self.per, elapsed, hits),
            self.freq == 0 || self.per == 0 ==> r.0 == 0,
            self.freq > 0 && self.per > 0 && hits < expected_hits(self.freq, self.per, elapsed)
                ==> r.0 == 0,
            self.freq > 0 && self.per > 0 && hits >= expected_hits(self.freq, self.per, elapsed)
                ==> elapsed + r.0 == next_due(self.freq, self.per, hits),
    {
        self.try_pace(elapsed, hits).unwrap()
    }

    /// Total version of `pace`: `None` exactly where the schedule cannot
    /// represent the wait (see `pace_fits`).
    pub fn try_pace(&self, elapsed: u64, hits: u64) -> (r: Option<(u64, bool)>)
        ensures
            r is Some <==> pace_fits(self.freq, self.per, elapsed, hits),
            pace_fits(self.freq, self.per, elapsed, hits) ==> r == Some(
                (pace_wait(self.freq, self.per, elapsed, hits) as u64, false),
            ),
    {
        if self.freq == 0 || self.per == 0 {
            return Some((0u64, false));
        }
        let n: u64 = elapsed / self.per;
        proof {
            assert((self.freq as u128) * (n as u128) <= (u64::MAX as u128) * (u64::MAX as u128))
                by (nonlinear_arith)
                requires
                    self.freq <= u64::MAX,
                    n <= u64::MAX,
            ;
        }
        let due: u128 = (self.freq as u128) * (n as u128);
        if (hits as u128) < due {
            return Some((0u64, false));
        }
        proof {
            assert((hits as u128 + 1) * (self.per as u128) <= (u64::MAX as u128 + 1) * (
            u64::MAX as u128)) by (nonlinear_arith)
                requires
                    hits <= u64::MAX,
                    self.per <= u64::MAX,
            ;
        }
        let next: u128 = (hits as u128 + 1) * (self.per as u128) / (self.freq as u128);
        if next < elapsed as u128 || next > u64::MAX as u128 {
            return None;
        }
        Some(((next - elapsed as u128) as u64, false))
    }
}

} // verus!
