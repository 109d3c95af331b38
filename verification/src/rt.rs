//! Runtime capability traits.
//!
//! The types in this module are the only surface through which the rest of
//! the stack asks a host runtime for time-based suspension or for executing a
//! unit of asynchronous work. Downstream code depends on these capability
//! traits alone, never on a concrete runtime, so an embedder can substitute a
//! deterministic clock in tests or a custom timer elsewhere.

use vstd::prelude::*;

use crate::time::{Duration, Instant};

verus! {

/// An executor of asynchronous work.
///
/// `execute` hands one unit of work off for independent execution; nothing is
/// promised about when it runs relative to other submitted work, beyond that
/// it eventually begins running outside the caller's own control flow.
pub trait Executor<Fut> {
    /// Place the unit of work into the executor to be run.
    fn execute(&self, fut: Fut);
}

/// Whether a deadline has been reached at the reading `now`.
pub open spec fn elapsed_at(deadline: Instant, now: Instant) -> bool {
    now.nanos >= deadline.nanos
}

/// A single-shot suspension: an owned handle armed for one deadline, which a
/// host runtime wakes once that deadline is reached.
///
/// A handle can be rearmed to a new deadline with `reset` without handing out
/// a new allocation, and `is_elapsed` checks the deadline against a clock
/// reading without suspending.
pub trait Sleep {
    /// The deadline the handle is currently armed for.
    spec fn deadline_of(&self) -> Instant;

    /// Read back the armed deadline.
    fn deadline(&self) -> (d: Instant)
        ensures
            d == self.deadline_of(),
    ;

    /// Rearm the same handle to a new deadline.
    fn reset(&mut self, deadline: Instant)
        ensures
            final(self).deadline_of() == deadline,
    ;

    /// Whether the armed deadline has been reached at the clock reading `now`.
    /// This never suspends.
    fn is_elapsed(&self, now: Instant) -> (r: bool)
        ensures
            r == elapsed_at(self.deadline_of(), now),
    ;
}

/// One step of a repeating tick source: what `poll_tick` decides when asked
/// at the clock reading `now`, relating the schedule before (`next_pre`) and
/// after (`next_post`) the call to the tick it yields, if any.
///
/// A tick is ready exactly when `now` has reached the next scheduled instant;
/// the yielded instant is the scheduled one (not `now`), and the schedule
/// then advances by exactly one period. Ticks missed while the source was not
/// polled are therefore delivered individually, one scheduled instant per
/// call, rather than coalesced.
pub open spec fn tick_step(
    period: Duration,
    next_pre: Instant,
    next_post: Instant,
    now: Instant,
    r: Option<Instant>,
) -> bool {
    &&& (r is Some <==> now.nanos >= next_pre.nanos)
    &&& (r is Some ==> r->0 == next_pre && next_post.nanos == next_pre.nanos + period.nanos)
    &&& (r is None ==> next_post == next_pre)
}

/// A repeating timer: a lazy, never-ending sequence of wake-up instants
/// spaced one period apart, consumed one at a time with `poll_tick`.
/// Dropping the source is the only way to stop it.
pub trait Interval {
    /// The period between scheduled ticks.
    spec fn period_of(&self) -> Duration;

    /// The next scheduled tick not yet delivered.
    spec fn next_of(&self) -> Instant;

    /// Ask for the next tick at the clock reading `now`: `Some` carries the
    /// next scheduled instant once `now` has reached it, `None` means the
    /// caller must try again later. Each call yields at most one tick.
    fn poll_tick(&mut self, now: Instant) -> (r: Option<Instant>)
        requires
            old(self).next_of().nanos + old(self).period_of().nanos <= u64::MAX,
        ensures
            final(self).period_of() == old(self).period_of(),
            tick_step(old(self).period_of(), old(self).next_of(), final(self).next_of(), now, r),
    ;
}

/// A timer capability: produces suspension handles and tick sources on
/// demand. All methods return immediately with a handle standing for a future
/// completion; none of them performs the wait itself.
pub trait Timer {
    /// Whether a concrete backing timer is available. Asking an unconfigured
    /// timer for any handle is a misconfiguration fault, never a silent no-op.
    spec fn configured(&self) -> bool;

    /// The clock reading from which this timer computes deadlines.
    spec fn now_of(&self) -> Instant;

    /// Whether a concrete backing timer is available, as an executable check,
    /// so that a caller can refuse to suspend on a misconfigured provider
    /// before any suspension occurs.
    fn is_configured(&self) -> (r: bool)
        ensures
            r == self.configured(),
    ;

    /// A suspension handle armed `duration` from now.
    fn sleep(&self, duration: Duration) -> (s: SleepHandle)
        requires
            self.configured(),
            self.now_of().nanos + duration.nanos <= u64::MAX,
        ensures
            s.deadline.nanos == self.now_of().nanos + duration.nanos,
    ;

    /// A suspension handle armed for the absolute instant `deadline`.
    fn sleep_until(&self, deadline: Instant) -> (s: SleepHandle)
        requires
            self.configured(),
        ensures
            s.deadline == deadline,
    ;

    /// A tick source with the given period, whose first tick is scheduled
    /// immediately (at the timer's current reading).
    fn interval(&self, period: Duration) -> (i: TickSource)
        requires
            self.configured(),
            period.nanos > 0,
        ensures
            i.period == period,
            i.next == self.now_of(),
    ;
}

/// The uniform suspension handle every [`Timer`] hands out.
///
/// The handle is the adapter between a host's own suspension primitive, which
/// may not tolerate being relocated once first polled, and the rest of the
/// stack: it carries only the armed deadline as a plain, freely movable
/// value, and the host adapter that owns the pinned primitive keeps it beside
/// this handle at the boundary.
#[derive(Clone, Copy, PartialEq, Eq, Structural, Debug)]
pub struct SleepHandle {
    pub deadline: Instant,
}

impl SleepHandle {
    pub fn new(deadline: Instant) -> (s: SleepHandle)
        ensures
            s.deadline == deadline,
    {
        SleepHandle { deadline }
    }
}

impl Sleep for SleepHandle {
    open spec fn deadline_of(&self) -> Instant {
        self.deadline
    }

    fn deadline(&self) -> Instant {
        self.deadline
    }

    fn reset(&mut self, deadline: Instant) {
        self.deadline = deadline;
    }

    fn is_elapsed(&self, now: Instant) -> bool {
        now.nanos >= self.deadline.nanos
    }
}

/// The uniform repeating-timer handle every [`Timer`] hands out: a period and
/// the next scheduled tick, advanced by [`Interval::poll_tick`].
#[derive(Clone, Copy, PartialEq, Eq, Structural, Debug)]
pub struct TickSource {
    pub period: Duration,
    pub next: Instant,
}

impl Interval for TickSource {
    open spec fn period_of(&self) -> Duration {
        self.period
    }

    open spec fn next_of(&self) -> Instant {
        self.next
    }

    fn poll_tick(&mut self, now: Instant) -> (r: Option<Instant>) {
        if now.nanos >= self.next.nanos {
            let tick = self.next;
            self.next = Instant { nanos: self.next.nanos + self.period.nanos };
            Some(tick)
        } else {
            None
        }
    }
}

/// Law: the ticks a source yields are monotonic. Across any two successive
/// delivered ticks, the second instant lies exactly one period after the
/// first; with a positive period the instants strictly increase, so the
/// stream of ready instants is spaced by at least the period.
pub proof fn lemma_ticks_monotonic(
    period: Duration,
    n0: Instant,
    n1: Instant,
    n2: Instant,
    now1: Instant,
    now2: Instant,
    t1: Instant,
    t2: Instant,
)
    requires
        tick_step(period, n0, n1, now1, Some(t1)),
        tick_step(period, n1, n2, now2, Some(t2)),
    ensures
        t2.nanos == t1.nanos + period.nanos,
        period.nanos > 0 ==> t1.nanos < t2.nanos,
{
}

/// Law: after `reset(d)`, `is_elapsed` reports false at every clock reading
/// before `d` and true at every reading at or past `d`.
pub proof fn lemma_reset_then_elapsed(post: SleepHandle, d: Instant, now: Instant)
    requires
        post.deadline_of() == d,
    ensures
        now.nanos < d.nanos ==> !elapsed_at(post.deadline_of(), now),
        now.nanos >= d.nanos ==> elapsed_at(post.deadline_of(), now),
{
}

} // verus!
