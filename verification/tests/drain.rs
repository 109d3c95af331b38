use rtcore::drain::{DrainChannel, DrainFault};

#[test]
fn channel_starts_fresh() {
    let chan = DrainChannel::channel();
    assert!(!chan.is_draining());
    assert_eq!(chan.watcher_count(), 0);
    assert!(!chan.poll_draining());
}

#[test]
fn signal_is_single_use() {
    let mut chan = DrainChannel::channel();
    assert_eq!(chan.drain(), Ok(()));
    // Finalizing the signal a second time is a deterministic fault.
    assert_eq!(chan.drain(), Err(DrainFault::AlreadyDraining));
    assert_eq!(chan.drain(), Err(DrainFault::AlreadyDraining));
    assert!(chan.is_draining());
}

#[test]
fn drain_completes_immediately_with_zero_watchers() {
    let mut chan = DrainChannel::channel();
    assert_eq!(chan.drain(), Ok(()));
    assert!(chan.poll_draining());
}

#[test]
fn drain_counts_watchers_down_to_zero() {
    let mut chan = DrainChannel::channel();
    let mut conns = Vec::new();
    for _ in 0..3 {
        conns.push(chan.watch());
    }
    assert_eq!(chan.watcher_count(), 3);
    assert_eq!(chan.drain(), Ok(()));
    // Not complete until every watcher has been released.
    for mut conn in conns {
        assert!(!chan.poll_draining());
        conn.complete(&mut chan);
    }
    assert!(chan.poll_draining());
    assert_eq!(chan.watcher_count(), 0);
}

#[test]
fn completion_before_drain_releases_watcher() {
    let mut chan = DrainChannel::channel();
    let mut conn = chan.watch();
    // The connection finishes before any drain is signalled: its watcher is
    // released all the same, and its hook was never invoked.
    let invoke = conn.pre_poll(&chan);
    assert!(!invoke);
    conn.complete(&mut chan);
    assert!(!conn.hook_invoked);
    assert!(conn.done);
    assert_eq!(chan.watcher_count(), 0);
    assert_eq!(chan.drain(), Ok(()));
    assert!(chan.poll_draining());
}

#[test]
fn hook_invoked_exactly_once() {
    let mut chan = DrainChannel::channel();
    let mut conn = chan.watch();
    // Before the drain begins, no poll asks for the hook.
    assert!(!conn.pre_poll(&chan));
    assert!(!conn.pre_poll(&chan));
    chan.drain().unwrap();
    // The first poll that observes the drain invokes the hook; none after.
    assert!(conn.pre_poll(&chan));
    assert!(!conn.pre_poll(&chan));
    assert!(!conn.pre_poll(&chan));
    conn.complete(&mut chan);
    assert!(chan.poll_draining());
}

#[test]
fn watcher_count_at_the_top_of_the_range() {
    let mut chan = DrainChannel { draining: false, signal_live: true, watchers: u64::MAX - 1 };
    let mut conn = chan.watch();
    assert_eq!(chan.watcher_count(), u64::MAX);
    conn.complete(&mut chan);
    assert_eq!(chan.watcher_count(), u64::MAX - 1);
}

#[test]
fn watchers_registered_after_drain_still_counted() {
    let mut chan = DrainChannel::channel();
    chan.drain().unwrap();
    let mut late = chan.watch();
    assert!(!chan.poll_draining());
    // A watcher registered after the drain began sees the notification on
    // its first poll.
    assert!(late.pre_poll(&chan));
    late.complete(&mut chan);
    assert!(chan.poll_draining());
}
