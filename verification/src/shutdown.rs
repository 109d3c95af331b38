//! The graceful-shutdown orchestrator.
//!
//! The orchestrator wraps a server's accept loop: while running it checks the
//! shutdown trigger once per scheduling round before letting the accept loop
//! proceed, registers every newly accepted connection with the drain channel
//! before that connection is serviced, and, once the trigger fires, finalizes
//! the signal and waits for the drain to complete. The embedder's event loop
//! polls the trigger future and the connections; the decisions — when to
//! transition, what to poll, when the whole shutdown is complete — are the
//! state machine here.

use vstd::prelude::*;

use crate::drain::{fresh_channel, DrainChannel, DrainOp, drain_op_post, Watching};

verus! {

/// The orchestrator's phase. Transitions go from `Running` to `Draining`
/// only; `Draining` is terminal.
#[derive(Clone, Copy, PartialEq, Eq, Structural, Debug)]
pub enum ShutdownState {
    /// Admitting and serving connections, watching the shutdown trigger.
    Running,
    /// The trigger fired: no new connection is admitted to the watched set,
    /// and the orchestrator waits for every registered connection to finish.
    Draining,
}

/// What one scheduling round of the orchestrator decided.
#[derive(Clone, Copy, PartialEq, Eq, Structural, Debug)]
pub enum GracefulPoll {
    /// Still running: the caller polls the accept loop with the current
    /// watcher, registering each newly accepted connection, and hands the
    /// accept loop's own result upward.
    Continue,
    /// Draining, with connections still outstanding: the caller suspends
    /// until a watcher is released.
    Pending,
    /// The drain is complete: the orchestrator's work is done.
    Complete,
}

/// The graceful-shutdown state machine: the current phase and the drain
/// channel whose signal half the orchestrator owns.
#[derive(Clone, Copy, PartialEq, Eq, Structural, Debug)]
pub struct Graceful {
    pub state: ShutdownState,
    pub chan: DrainChannel,
}

/// A handle the accept loop uses to register each newly accepted connection
/// with the orchestrator's drain channel before the connection is serviced.
#[derive(Clone, Copy, PartialEq, Eq, Structural, Debug)]
pub struct GracefulWatcher {}

impl GracefulWatcher {
    /// Wrap one newly accepted connection: register a watcher with the drain
    /// channel and hand back the [`Watching`] wrapper that observes the drain
    /// for it.
    pub fn watch(&self, chan: &mut DrainChannel) -> (w: Watching)
        requires
            old(chan).watchers < u64::MAX,
        ensures
            *final(chan) == drain_op_post(*old(chan), DrainOp::Watch),
            !w.hook_invoked,
            !w.done,
    {
        chan.watch()
    }
}

impl Graceful {
    /// Well-formedness: while running, the signal half is still owned and no
    /// drain has begun; once draining, the signal has been consumed — so the
    /// signal is finalized exactly once, on the transition.
    pub open spec fn wf(&self) -> bool {
        match self.state {
            ShutdownState::Running => self.chan.signal_live && !self.chan.draining,
            ShutdownState::Draining => !self.chan.signal_live && self.chan.draining,
        }
    }

    /// A new orchestrator around a fresh drain channel, in the running phase.
    pub fn new() -> (g: Graceful)
        ensures
            g.wf(),
            g.state is Running,
            g.chan == fresh_channel(),
    {
        Graceful { state: ShutdownState::Running, chan: DrainChannel::channel() }
    }

    /// The watcher handle the accept loop registers new connections through.
    pub fn watcher(&self) -> (w: GracefulWatcher) {
        GracefulWatcher {}
    }

    /// Register one newly accepted connection. Connections are admitted to
    /// the watched set only while running, and each is registered before it
    /// is serviced, so no connection ever runs unobserved by the drain.
    pub fn register(&mut self) -> (w: Watching)
        requires
            old(self).wf(),
            old(self).state is Running,
            old(self).chan.watchers < u64::MAX,
        ensures
            final(self).wf(),
            final(self).state == old(self).state,
            final(self).chan == drain_op_post(old(self).chan, DrainOp::Watch),
            !w.hook_invoked,
            !w.done,
    {
        self.chan.watch()
    }

    /// One scheduling round.
    ///
    /// Running and the trigger has not fired: keep running (the caller polls
    /// the accept loop). Running and the trigger fired: finalize the signal —
    /// owned, by well-formedness, so this is the one finalization — and enter
    /// the terminal draining phase. Draining: complete exactly when every
    /// registered connection has released its watcher, immediately so when
    /// none is outstanding.
    pub fn poll_step(&mut self, trigger_ready: bool) -> (r: GracefulPoll)
        requires
            old(self).wf(),
        ensures
            final(self).wf(),
            final(self).chan.watchers == old(self).chan.watchers,
            (old(self).state is Running && !trigger_ready) ==> *final(self) == *old(self),
            (old(self).state is Running && trigger_ready) ==> final(self).state is Draining
                && final(self).chan == drain_op_post(old(self).chan, DrainOp::Drain),
            old(self).state is Draining ==> *final(self) == *old(self),
            r is Continue <==> (old(self).state is Running && !trigger_ready),
            r is Complete <==> final(self).chan.draining_done(),
            final(self).state is Draining ==> (r is Complete <==> final(self).chan.watchers
                == 0),
            r is Pending ==> final(self).state is Draining && final(self).chan.watchers > 0,
    {
        match self.state {
            ShutdownState::Running => {
                if trigger_ready {
                    let _taken = self.chan.drain();
                    self.state = ShutdownState::Draining;
                    if self.chan.watchers == 0 {
                        GracefulPoll::Complete
                    } else {
                        GracefulPoll::Pending
                    }
                } else {
                    GracefulPoll::Continue
                }
            },
            ShutdownState::Draining => {
                if self.chan.watchers == 0 {
                    GracefulPoll::Complete
                } else {
                    GracefulPoll::Pending
                }
            },
        }
    }
}

} // verus!
