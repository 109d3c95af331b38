//! The timer configuration resolved once at server construction.
//!
//! Either the embedder supplies a backing timer, or none is available and
//! every suspension request is a misconfiguration fault. The selection is
//! made once, here, and shared read-only for the life of the server, so that
//! no runtime-selection branch is scattered through connection handling.

use vstd::prelude::*;

use crate::rt::{SleepHandle, TickSource, Timer};
use crate::time::{Duration, Instant};

verus! {

/// The fault raised by a timer operation on a configuration with no backing
/// timer: an explicit contract violation by the caller's configuration, not a
/// runtime error to recover from.
#[derive(Clone, Copy, PartialEq, Eq, Structural, Debug)]
pub enum TimerFault {
    /// No backing timer was supplied and no host default exists.
    Unconfigured,
}

/// Either the embedder supplied a backing timer, or no timer exists.
///
/// The deliberate policy is to crash loudly rather than substitute a no-op
/// timer: the [`Timer`] methods of an unset `Tim` are excluded by contract,
/// and the fallible `try_` forms report [`TimerFault::Unconfigured`] exactly
/// when no timer is configured.
#[derive(Clone, Copy, PartialEq, Eq, Structural, Debug)]
pub enum Tim<T> {
    /// No timer supplied and no host default available.
    Unset,
    /// A backing timer supplied by the embedder (or the host default).
    Timer(T),
}

impl<T: Timer> Tim<T> {
    /// A suspension handle armed `duration` from now, or the misconfiguration
    /// fault if and only if no backing timer is configured.
    pub fn try_sleep(&self, duration: Duration) -> (r: Result<SleepHandle, TimerFault>)
        requires
            self.configured() ==> self.now_of().nanos + duration.nanos <= u64::MAX,
        ensures
            r is Ok <==> self.configured(),
            r is Ok ==> r->Ok_0.deadline.nanos == self.now_of().nanos + duration.nanos,
            r is Err ==> r->Err_0 == TimerFault::Unconfigured,
    {
        match self {
            Tim::Unset => Err(TimerFault::Unconfigured),
            Tim::Timer(t) => {
                if t.is_configured() {
                    Ok(t.sleep(duration))
                } else {
                    Err(TimerFault::Unconfigured)
                }
            },
        }
    }

    /// A suspension handle armed for `deadline`, or the misconfiguration
    /// fault if and only if no backing timer is configured.
    pub fn try_sleep_until(&self, deadline: Instant) -> (r: Result<SleepHandle, TimerFault>)
        ensures
            r is Ok <==> self.configured(),
            r is Ok ==> r->Ok_0.deadline == deadline,
            r is Err ==> r->Err_0 == TimerFault::Unconfigured,
    {
        match self {
            Tim::Unset => Err(TimerFault::Unconfigured),
            Tim::Timer(t) => {
                if t.is_configured() {
                    Ok(t.sleep_until(deadline))
                } else {
                    Err(TimerFault::Unconfigured)
                }
            },
        }
    }

    /// A tick source with the given period, or the misconfiguration fault if
    /// and only if no backing timer is configured.
    pub fn try_interval(&self, period: Duration) -> (r: Result<TickSource, TimerFault>)
        requires
            period.nanos > 0,
        ensures
            r is Ok <==> self.configured(),
            r is Ok ==> r->Ok_0.period == period && r->Ok_0.next == self.now_of(),
            r is Err ==> r->Err_0 == TimerFault::Unconfigured,
    {
        match self {
            Tim::Unset => Err(TimerFault::Unconfigured),
            Tim::Timer(t) => {
                if t.is_configured() {
                    Ok(t.interval(period))
                } else {
                    Err(TimerFault::Unconfigured)
                }
            },
        }
    }
}

impl<T: Timer> Timer for Tim<T> {
    open spec fn configured(&self) -> bool {
        match self {
            Tim::Unset => false,
            Tim::Timer(t) => t.configured(),
        }
    }

    open spec fn now_of(&self) -> Instant {
        match self {
            Tim::Unset => Instant { nanos: 0 },
            Tim::Timer(t) => t.now_of(),
        }
    }

    fn is_configured(&self) -> bool {
        match self {
            Tim::Unset => false,
            Tim::Timer(t) => t.is_configured(),
        }
    }

    fn sleep(&self, duration: Duration) -> SleepHandle {
        match self {
            Tim::Unset => vstd::pervasive::unreached(),
            Tim::Timer(t) => t.sleep(duration),
        }
    }

    fn sleep_until(&self, deadline: Instant) -> SleepHandle {
        match self {
            Tim::Unset => vstd::pervasive::unreached(),
            Tim::Timer(t) => t.sleep_until(deadline),
        }
    }

    fn interval(&self, period: Duration) -> TickSource {
        match self {
            Tim::Unset => vstd::pervasive::unreached(),
            Tim::Timer(t) => t.interval(period),
        }
    }
}

} // verus!
