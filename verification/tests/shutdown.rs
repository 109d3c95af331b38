use rtcore::shutdown::{Graceful, GracefulPoll, ShutdownState};

#[test]
fn runs_until_trigger_fires() {
    let mut g = Graceful::new();
    // While the trigger is pending, each round lets the accept loop proceed.
    assert_eq!(g.poll_step(false), GracefulPoll::Continue);
    assert_eq!(g.poll_step(false), GracefulPoll::Continue);
    assert_eq!(g.state, ShutdownState::Running);
}

#[test]
fn zero_connections_completes_immediately() {
    // The trigger fires with no connection ever accepted: the orchestrator
    // resolves immediately upon transitioning to draining.
    let mut g = Graceful::new();
    assert_eq!(g.poll_step(false), GracefulPoll::Continue);
    assert_eq!(g.poll_step(true), GracefulPoll::Complete);
    assert_eq!(g.state, ShutdownState::Draining);
}

#[test]
fn three_connections_drain_to_completion() {
    let mut g = Graceful::new();
    // Three connections are accepted and registered while running.
    let mut conns = vec![g.register(), g.register(), g.register()];
    assert_eq!(g.chan.watcher_count(), 3);
    // The trigger fires mid-flight: the orchestrator transitions to draining
    // and is not complete while any connection is outstanding.
    assert_eq!(g.poll_step(true), GracefulPoll::Pending);
    assert_eq!(g.state, ShutdownState::Draining);
    // Each connection receives its shutdown-hook invocation exactly once.
    for conn in conns.iter_mut() {
        assert!(conn.pre_poll(&g.chan));
        assert!(!conn.pre_poll(&g.chan));
    }
    // The orchestrator resolves only after the third connection completes.
    let mut third = conns.pop().unwrap();
    for mut conn in conns {
        conn.complete(&mut g.chan);
        assert_eq!(g.poll_step(false), GracefulPoll::Pending);
    }
    third.complete(&mut g.chan);
    assert_eq!(g.poll_step(false), GracefulPoll::Complete);
}

#[test]
fn connection_finishing_early_is_released() {
    let mut g = Graceful::new();
    let mut early = g.register();
    let mut late = g.register();
    // One connection finishes on its own before any shutdown trigger.
    assert!(!early.pre_poll(&g.chan));
    early.complete(&mut g.chan);
    assert!(!early.hook_invoked);
    assert_eq!(g.poll_step(true), GracefulPoll::Pending);
    assert!(late.pre_poll(&g.chan));
    late.complete(&mut g.chan);
    assert_eq!(g.poll_step(false), GracefulPoll::Complete);
}

#[test]
fn draining_is_terminal() {
    let mut g = Graceful::new();
    let mut conn = g.register();
    assert_eq!(g.poll_step(true), GracefulPoll::Pending);
    // Later rounds never go back to running, whatever the trigger reports.
    assert_eq!(g.poll_step(false), GracefulPoll::Pending);
    assert_eq!(g.poll_step(true), GracefulPoll::Pending);
    assert_eq!(g.state, ShutdownState::Draining);
    assert!(conn.pre_poll(&g.chan));
    conn.complete(&mut g.chan);
    assert_eq!(g.poll_step(false), GracefulPoll::Complete);
    assert_eq!(g.poll_step(true), GracefulPoll::Complete);
    assert_eq!(g.state, ShutdownState::Draining);
}

#[test]
fn watcher_registers_with_the_channel() {
    let mut g = Graceful::new();
    let watcher = g.watcher();
    let w = watcher.watch(&mut g.chan);
    assert!(!w.hook_invoked);
    assert!(!w.done);
    assert_eq!(g.chan.watcher_count(), 1);
}
