//! The drain controller: a one-shot broadcast with a countdown.
//!
//! One shutdown trigger must fan out to an unbounded, dynamically growing set
//! of in-flight connections, and the triggering side must be able to wait
//! until every one of them has released its handle. In a running server the
//! two halves of this channel are a single-owner signal handle and a
//! reference-counted, cloneable watch handle whose clone count is kept by an
//! atomic counter. What is verified here is the protocol itself, so the
//! channel state those handles share is explicit: [`DrainChannel`] carries
//! the signal's single-use flag, the drain flag, and the watcher count, and
//! each handle operation is a function on that state. The host embedding
//! keeps one such state per server and drives it from the handle events it
//! observes (a watch cloned, a watch released, the signal finalized).
//!
//! [`Watching`] is the per-connection wrapper produced by registering one
//! connection with the channel: it decides, poll by poll, when the
//! connection's graceful-shutdown hook must run (exactly once, at the first
//! poll after the drain began) and releases its watcher on completion.

use vstd::prelude::*;

verus! {

/// The fault raised by finalizing the signal half of a drain channel a second
/// time: a programming error, reported deterministically.
#[derive(Clone, Copy, PartialEq, Eq, Structural, Debug)]
pub enum DrainFault {
    /// The signal was already consumed; the channel is already draining.
    AlreadyDraining,
}

/// The state one drain channel's handles share.
#[derive(Clone, Copy, PartialEq, Eq, Structural, Debug)]
pub struct DrainChannel {
    /// Whether the signal has been finalized and the drain has begun.
    pub draining: bool,
    /// Whether the single-owner signal half is still unconsumed.
    pub signal_live: bool,
    /// How many watcher handles are outstanding: one per in-flight
    /// connection registered with this channel and not yet completed.
    pub watchers: u64,
}

/// The state of a freshly created channel: signal unconsumed, not draining,
/// no watchers.
pub open spec fn fresh_channel() -> DrainChannel {
    DrainChannel { draining: false, signal_live: true, watchers: 0 }
}

/// One operation on a drain channel's shared state.
#[derive(Clone, Copy, PartialEq, Eq, Structural, Debug)]
pub enum DrainOp {
    /// Register one more watcher (a watch handle cloned for a connection).
    Watch,
    /// Release one watcher (a connection completed and dropped its handle).
    Release,
    /// Finalize the signal and begin the drain.
    Drain,
}

/// Whether `op` is permitted on state `c`: the watcher count can neither
/// overflow nor go below zero, and the signal can be consumed only once.
pub open spec fn drain_op_ok(c: DrainChannel, op: DrainOp) -> bool {
    match op {
        DrainOp::Watch => c.watchers < u64::MAX,
        DrainOp::Release => c.watchers > 0,
        DrainOp::Drain => c.signal_live,
    }
}

/// The state after a permitted `op` on state `c`.
pub open spec fn drain_op_post(c: DrainChannel, op: DrainOp) -> DrainChannel {
    match op {
        DrainOp::Watch => DrainChannel { watchers: (c.watchers + 1) as u64, ..c },
        DrainOp::Release => DrainChannel { watchers: (c.watchers - 1) as u64, ..c },
        DrainOp::Drain => DrainChannel { draining: true, signal_live: false, ..c },
    }
}

impl DrainChannel {
    /// A fresh channel: the signal half unconsumed, no drain begun, no
    /// watchers outstanding. Exactly one channel exists per server instance.
    pub fn channel() -> (c: DrainChannel)
        ensures
            c == fresh_channel(),
    {
        DrainChannel { draining: false, signal_live: true, watchers: 0 }
    }

    /// Whether the drain has completed: the signal was finalized and every
    /// outstanding watcher has been released.
    pub open spec fn draining_done(&self) -> bool {
        self.draining && self.watchers == 0
    }

    /// Finalize the signal half and begin the drain. The signal is single
    /// use: the first call succeeds and every later call reports
    /// [`DrainFault::AlreadyDraining`] and changes nothing.
    pub fn drain(&mut self) -> (r: Result<(), DrainFault>)
        ensures
            r is Ok <==> old(self).signal_live,
            old(self).signal_live ==> *final(self) == drain_op_post(*old(self), DrainOp::Drain),
            !old(self).signal_live ==> *final(self) == *old(self) && r->Err_0
                == DrainFault::AlreadyDraining,
            final(self).draining == (old(self).draining || old(self).signal_live),
            final(self).watchers == old(self).watchers,
    {
        if self.signal_live {
            self.signal_live = false;
            self.draining = true;
            Ok(())
        } else {
            Err(DrainFault::AlreadyDraining)
        }
    }

    /// Register one more watcher with this channel and hand back the
    /// per-connection wrapper that observes the drain for it. The wrapper
    /// starts with its hook not yet invoked and its watcher not yet released.
    pub fn watch(&mut self) -> (w: Watching)
        requires
            old(self).watchers < u64::MAX,
        ensures
            *final(self) == drain_op_post(*old(self), DrainOp::Watch),
            !w.hook_invoked,
            !w.done,
    {
        self.watchers = self.watchers + 1;
        Watching { hook_invoked: false, done: false }
    }

    /// Release one watcher: a registered connection ran to completion and
    /// dropped its handle.
    pub fn release(&mut self)
        requires
            old(self).watchers > 0,
        ensures
            *final(self) == drain_op_post(*old(self), DrainOp::Release),
    {
        self.watchers = self.watchers - 1;
    }

    /// Poll the draining future: whether the drain has completed. The drain
    /// completes exactly when the signal has been finalized and the watcher
    /// count has reached zero; with no watcher outstanding it is complete
    /// immediately.
    pub fn poll_draining(&self) -> (r: bool)
        ensures
            r == self.draining_done(),
    {
        self.draining && self.watchers == 0
    }

    /// Whether the drain has begun (the notification a watcher observes).
    pub fn is_draining(&self) -> (r: bool)
        ensures
            r == self.draining,
    {
        self.draining
    }

    /// How many watchers are outstanding.
    pub fn watcher_count(&self) -> (n: u64)
        ensures
            n == self.watchers,
    {
        self.watchers
    }
}

/// How often `op` occurs in the operation sequence `ops`.
pub open spec fn count_op(ops: Seq<DrainOp>, op: DrainOp) -> int
    decreases ops.len(),
{
    if ops.len() == 0 {
        0
    } else {
        (if ops[0] == op {
            1int
        } else {
            0int
        }) + count_op(ops.skip(1), op)
    }
}

/// An occurrence count is never negative.
pub proof fn lemma_count_op_nonneg(ops: Seq<DrainOp>, op: DrainOp)
    ensures
        count_op(ops, op) >= 0,
    decreases ops.len(),
{
    if ops.len() > 0 {
        lemma_count_op_nonneg(ops.skip(1), op);
    }
}

/// Whether every operation in `ops` is permitted, each on the state left by
/// the ones before it, starting from `c`.
pub open spec fn drain_ops_ok(c: DrainChannel, ops: Seq<DrainOp>) -> bool
    decreases ops.len(),
{
    ops.len() == 0 || (drain_op_ok(c, ops[0]) && drain_ops_ok(
        drain_op_post(c, ops[0]),
        ops.skip(1),
    ))
}

/// The state after running the operation sequence `ops` from `c`.
pub open spec fn drain_after(c: DrainChannel, ops: Seq<DrainOp>) -> DrainChannel
    decreases ops.len(),
{
    if ops.len() == 0 {
        c
    } else {
        drain_after(drain_op_post(c, ops[0]), ops.skip(1))
    }
}

/// The watcher count after a permitted operation sequence is the count
/// before, plus one per registration, minus one per release.
pub proof fn lemma_watcher_count(c: DrainChannel, ops: Seq<DrainOp>)
    requires
        drain_ops_ok(c, ops),
    ensures
        drain_after(c, ops).watchers == c.watchers + count_op(ops, DrainOp::Watch) - count_op(
            ops,
            DrainOp::Release,
        ),
    decreases ops.len(),
{
    if ops.len() > 0 {
        lemma_watcher_count(drain_op_post(c, ops[0]), ops.skip(1));
    }
}

/// After a permitted operation sequence the channel is draining exactly when
/// it already was or the sequence finalized the signal, and the signal is
/// still live exactly when it was live and the sequence never finalized it.
pub proof fn lemma_drain_flags(c: DrainChannel, ops: Seq<DrainOp>)
    requires
        drain_ops_ok(c, ops),
    ensures
        drain_after(c, ops).draining == (c.draining || count_op(ops, DrainOp::Drain) > 0),
        drain_after(c, ops).signal_live == (c.signal_live && count_op(ops, DrainOp::Drain) == 0),
    decreases ops.len(),
{
    if ops.len() > 0 {
        lemma_count_op_nonneg(ops.skip(1), DrainOp::Drain);
        lemma_drain_flags(drain_op_post(c, ops[0]), ops.skip(1));
    }
}

/// Law (countdown to zero): starting from a fresh channel, after any
/// permitted sequence of handle operations the draining future is complete
/// exactly when the signal was finalized and every watcher ever registered
/// has been released. In particular it is not complete while any registered
/// connection is still outstanding, and it is complete immediately when the
/// signal is finalized with no connection ever registered (or all released).
pub proof fn lemma_draining_completion(ops: Seq<DrainOp>)
    requires
        drain_ops_ok(fresh_channel(), ops),
    ensures
        drain_after(fresh_channel(), ops).draining_done() <==> (count_op(ops, DrainOp::Drain) > 0
            && count_op(ops, DrainOp::Watch) == count_op(ops, DrainOp::Release)),
{
    lemma_watcher_count(fresh_channel(), ops);
    lemma_drain_flags(fresh_channel(), ops);
}

/// One poll decision of a [`Watching`] wrapper: relates the wrapper before
/// and after the decision, the drain flag it observed, and whether it must
/// invoke the connection's graceful-shutdown hook now. The hook is due at the
/// first poll that observes the drain, and only then; whether it was ever due
/// is latched in `hook_invoked`.
pub open spec fn watch_step(pre: Watching, post: Watching, draining: bool, invoke: bool) -> bool {
    &&& post.done == pre.done
    &&& invoke == (draining && !pre.hook_invoked)
    &&& post.hook_invoked == (pre.hook_invoked || draining)
}

/// The per-connection wrapper around one unit of watched work.
///
/// The owner polls the wrapped connection as usual, but first asks
/// [`Watching::pre_poll`] whether the drain notification arrived, invoking
/// the connection's idempotent "begin graceful shutdown" hook when (and only
/// the one time) it says so; when the connection runs to its natural
/// completion, [`Watching::complete`] releases the watcher — also when it
/// completes before any drain was signalled.
#[derive(Clone, Copy, PartialEq, Eq, Structural, Debug)]
pub struct Watching {
    /// Whether the graceful-shutdown hook has been invoked for this
    /// connection (it is invoked at most once).
    pub hook_invoked: bool,
    /// Whether the connection completed and its watcher was released.
    pub done: bool,
}

impl Watching {
    /// Decide, before one poll of the wrapped connection, whether its
    /// graceful-shutdown hook must be invoked now: true exactly at the first
    /// poll that observes the channel draining.
    pub fn pre_poll(&mut self, chan: &DrainChannel) -> (invoke: bool)
        requires
            !old(self).done,
        ensures
            watch_step(*old(self), *final(self), chan.draining, invoke),
    {
        let invoke = chan.draining && !self.hook_invoked;
        if chan.draining {
            self.hook_invoked = true;
        }
        invoke
    }

    /// Record that the wrapped connection ran to its natural completion, and
    /// release its watcher from the channel. This is done exactly once per
    /// registered connection, whether or not a drain was ever signalled.
    pub fn complete(&mut self, chan: &mut DrainChannel)
        requires
            !old(self).done,
            old(chan).watchers > 0,
        ensures
            final(self).done,
            final(self).hook_invoked == old(self).hook_invoked,
            *final(chan) == drain_op_post(*old(chan), DrainOp::Release),
    {
        self.done = true;
        chan.release();
    }
}

/// The wrapper state after one poll decision that observed the drain flag
/// `draining`: whether the hook was ever due is latched.
pub open spec fn watch_post(w: Watching, draining: bool) -> Watching {
    Watching { hook_invoked: w.hook_invoked || draining, done: w.done }
}

/// The wrapper state after a run of poll decisions that observed the drain
/// flags `drains`, in order.
pub open spec fn watch_after(w: Watching, drains: Seq<bool>) -> Watching
    decreases drains.len(),
{
    if drains.len() == 0 {
        w
    } else {
        watch_after(watch_post(w, drains[0]), drains.skip(1))
    }
}

/// Whether the poll decision at position `k` of the run invokes the hook:
/// it observes the drain and no earlier decision has latched the hook.
pub open spec fn invoke_at(w: Watching, drains: Seq<bool>, k: int) -> bool {
    drains[k] && !watch_after(w, drains.take(k)).hook_invoked
}

/// Once latched, the hook stays latched through any further run.
pub proof fn lemma_hook_latch(w: Watching, drains: Seq<bool>)
    requires
        w.hook_invoked,
    ensures
        watch_after(w, drains).hook_invoked,
    decreases drains.len(),
{
    if drains.len() > 0 {
        lemma_hook_latch(watch_post(w, drains[0]), drains.skip(1));
    }
}

/// Law (hook exactly once): over any run of poll decisions of one watching
/// wrapper, at most one decision invokes the connection's graceful-shutdown
/// hook — once some poll observed the drain and invoked it, no later poll
/// invokes it again. (That some poll does invoke it is immediate from
/// [`invoke_at`]: the first decision that observes the drain invokes the
/// hook, since the hook can only have been latched by an earlier observation.)
pub proof fn lemma_hook_at_most_once(w: Watching, drains: Seq<bool>, j: int, k: int)
    requires
        0 <= j < k < drains.len(),
        invoke_at(w, drains, j),
    ensures
        !invoke_at(w, drains, k),
    decreases j,
{
    let w1 = watch_post(w, drains[0]);
    let d1 = drains.skip(1);
    if j == 0 {
        // The decision at 0 observed the drain, so the hook is latched in
        // every state the later decisions see.
        assert(drains.take(k)[0] == drains[0]);
        assert(drains.take(k).skip(1) =~= d1.take(k - 1));
        lemma_hook_latch(w1, d1.take(k - 1));
        assert(watch_after(w, drains.take(k)).hook_invoked);
    } else {
        // Shift the run by one decision and use the same argument.
        assert(drains.take(j).skip(1) =~= d1.take(j - 1));
        assert(d1[j - 1] == drains[j]);
        assert(invoke_at(w1, d1, j - 1));
        lemma_hook_at_most_once(w1, d1, j - 1, k - 1);
        assert(drains.take(k).skip(1) =~= d1.take(k - 1));
        assert(d1[k - 1] == drains[k]);
    }
}

} // verus!
