use vstd::prelude::*;

verus! {

/// A span of time, counted in whole nanoseconds.
///
/// The runtime abstraction never reads a wall clock of its own; durations and
/// instants are plain counters so that every component that does arithmetic on
/// them can be verified. A host adapter converts between these values and the
/// host's native time types at the boundary.
#[derive(Clone, Copy, PartialEq, Eq, Structural, Debug)]
pub struct Duration {
    pub nanos: u64,
}

/// A point in time, counted in whole nanoseconds from an arbitrary origin
/// fixed by the timer that produced it.
#[derive(Clone, Copy, PartialEq, Eq, Structural, Debug)]
pub struct Instant {
    pub nanos: u64,
}

impl Duration {
    pub fn from_nanos(nanos: u64) -> (d: Duration)
        ensures
            d.nanos == nanos,
    {
        Duration { nanos }
    }
}

impl Instant {
    pub fn from_nanos(nanos: u64) -> (i: Instant)
        ensures
            i.nanos == nanos,
    {
        Instant { nanos }
    }

    /// The instant one duration `d` after `self`.
    pub fn add_duration(self, d: Duration) -> (r: Instant)
        requires
            self.nanos + d.nanos <= u64::MAX,
        ensures
            r.nanos == self.nanos + d.nanos,
    {
        Instant { nanos: self.nanos + d.nanos }
    }

    /// Whether `self` is at or after `other`.
    pub fn at_or_after(self, other: Instant) -> (r: bool)
        ensures
            r == (self.nanos >= other.nanos),
    {
        self.nanos >= other.nanos
    }
}

} // verus!
