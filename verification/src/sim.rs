//! A deterministic timer for simulated time.
//!
//! [`SimTimer`] implements the [`Timer`](crate::rt::Timer) capability over a
//! clock that never moves on its own: it stays paused until the owner calls
//! [`SimTimer::advance`]. This is the substitutable clock an embedder plugs in
//! to drive timeouts and tick sources deterministically.

use vstd::prelude::*;

use crate::rt::{SleepHandle, TickSource, Timer};
use crate::time::{Duration, Instant};

verus! {

/// A manually advanced clock implementing the full timer capability set.
#[derive(Clone, Copy, PartialEq, Eq, Structural, Debug)]
pub struct SimTimer {
    /// The current reading of the simulated clock.
    pub now: Instant,
}

impl SimTimer {
    /// A simulated timer whose clock reads `start`.
    pub fn new(start: Instant) -> (t: SimTimer)
        ensures
            t.now == start,
    {
        SimTimer { now: start }
    }

    /// Read the simulated clock.
    pub fn now(&self) -> (n: Instant)
        ensures
            n == self.now,
    {
        self.now
    }

    /// Move the simulated clock forward by `d`. Time never moves backward.
    pub fn advance(&mut self, d: Duration)
        requires
            old(self).now.nanos + d.nanos <= u64::MAX,
        ensures
            final(self).now.nanos == old(self).now.nanos + d.nanos,
    {
        self.now = Instant { nanos: self.now.nanos + d.nanos };
    }
}

impl Timer for SimTimer {
    open spec fn configured(&self) -> bool {
        true
    }

    open spec fn now_of(&self) -> Instant {
        self.now
    }

    fn is_configured(&self) -> bool {
        true
    }

    fn sleep(&self, duration: Duration) -> SleepHandle {
        SleepHandle { deadline: Instant { nanos: self.now.nanos + duration.nanos } }
    }

    fn sleep_until(&self, deadline: Instant) -> SleepHandle {
        SleepHandle { deadline }
    }

    fn interval(&self, period: Duration) -> TickSource {
        TickSource { period, next: self.now }
    }
}

} // verus!
