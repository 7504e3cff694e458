use smol_thread_pool::signal::{wait_round, wait_step, WaitEvent, WaitForStop, WaiterPhase};

#[test]
fn round_parks_while_clear_and_resolves_once_stopped() {
    let mut s = WaitForStop::new();
    assert_eq!(wait_round(&s), WaiterPhase::Parked);
    s.stop();
    assert_eq!(wait_round(&s), WaiterPhase::Resolved);
    assert_eq!(wait_round(&s), WaiterPhase::Resolved);
}

#[test]
fn new_signal_not_stopped() {
    let s = WaitForStop::new();
    assert!(!s.query());
}

#[test]
fn stop_is_idempotent() {
    let mut s = WaitForStop::new();
    s.stop();
    assert!(s.query());
    s.stop();
    s.stop();
    assert!(s.query());
}

#[test]
fn wait_resolves_immediately_after_stop() {
    // A wait that starts after the signal fired sees the flag set on its
    // first read and is over at once, with no registration and no parking.
    let mut s = WaitForStop::new();
    s.stop();
    let phase = wait_step(WaiterPhase::Checking, WaitEvent::Flag(s.query()));
    assert_eq!(phase, WaiterPhase::Resolved);
}

#[test]
fn wait_registers_then_parks_while_clear() {
    let s = WaitForStop::new();
    let p1 = wait_step(WaiterPhase::Checking, WaitEvent::Flag(s.query()));
    assert_eq!(p1, WaiterPhase::Registered);
    let p2 = wait_step(p1, WaitEvent::Flag(s.query()));
    assert_eq!(p2, WaiterPhase::Parked);
    let p3 = wait_step(p2, WaitEvent::Notified);
    assert_eq!(p3, WaiterPhase::Checking);
}

#[test]
fn double_check_catches_stop_during_registration() {
    // The signal fires between the first read and the registration: the
    // re-check sees the flag set and the waiter never parks.
    let mut s = WaitForStop::new();
    let p1 = wait_step(WaiterPhase::Checking, WaitEvent::Flag(s.query()));
    assert_eq!(p1, WaiterPhase::Registered);
    s.stop();
    let p2 = wait_step(p1, WaitEvent::Flag(s.query()));
    assert_eq!(p2, WaiterPhase::Resolved);
}

#[test]
fn resolved_stays_resolved() {
    for e in [
        WaitEvent::Flag(false),
        WaitEvent::Flag(true),
        WaitEvent::Notified,
    ] {
        assert_eq!(wait_step(WaiterPhase::Resolved, e), WaiterPhase::Resolved);
    }
}

#[test]
fn scenario_two_waiters_then_stop() {
    // Two tasks wait before any stop; a third party stops once; both waits
    // complete, and a later wait completes immediately.
    let mut s = WaitForStop::new();

    // First waiter reads clear twice and parks.
    let mut w1 = wait_step(WaiterPhase::Checking, WaitEvent::Flag(s.query()));
    w1 = wait_step(w1, WaitEvent::Flag(s.query()));
    assert_eq!(w1, WaiterPhase::Parked);

    // Second waiter has registered and is about to re-check.
    let w2 = wait_step(WaiterPhase::Checking, WaitEvent::Flag(s.query()));
    assert_eq!(w2, WaiterPhase::Registered);

    s.stop();

    // The broadcast wakes the parked waiter; its next read resolves it.
    let mut w1 = wait_step(w1, WaitEvent::Notified);
    w1 = wait_step(w1, WaitEvent::Flag(s.query()));
    assert_eq!(w1, WaiterPhase::Resolved);

    // The registered waiter's re-check resolves it.
    let w2 = wait_step(w2, WaitEvent::Flag(s.query()));
    assert_eq!(w2, WaiterPhase::Resolved);

    // A wait that starts now resolves on its first read.
    let w3 = wait_step(WaiterPhase::Checking, WaitEvent::Flag(s.query()));
    assert_eq!(w3, WaiterPhase::Resolved);
}

#[test]
fn broadcast_resolves_every_waiter() {
    // Several concurrent waiters in every phase a waiter can be in before
    // the stop: one broadcast plus one read resolves them all.
    let mut s = WaitForStop::new();
    s.stop();
    let waiters = [
        WaiterPhase::Checking,
        WaiterPhase::Registered,
        WaiterPhase::Parked,
        WaiterPhase::Checking,
        WaiterPhase::Registered,
    ];
    for w in waiters {
        let after_wake = wait_step(w, WaitEvent::Notified);
        let done = wait_step(after_wake, WaitEvent::Flag(s.query()));
        assert_eq!(done, WaiterPhase::Resolved);
    }
}
