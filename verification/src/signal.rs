//! Model of the shutdown signal: a monotonic stop flag with broadcast
//! wake-up semantics.
//!
//! `WaitForStop` is the flag itself: once stopped, it stays stopped. A task
//! that waits for the signal follows the double-check protocol captured by
//! [`wait_step`]: read the flag; if clear, register for the next broadcast;
//! re-read the flag; only if it is still clear, park until notified, then
//! start over. The surrounding shell performs the atomic reads and the
//! parking, and feeds each observation back in as a [`WaitEvent`].

use vstd::prelude::*;

verus! {

/// The monotonic stop flag. Once [`WaitForStop::stop`] has run, the flag is
/// set and never reverts.
pub struct WaitForStop {
    stopped: bool,
}

/// The state a stopped flag is left in, whatever it held before.
pub closed spec fn stopped_state() -> WaitForStop {
    WaitForStop { stopped: true }
}

/// What one call to `stop` leaves behind: the stopped state, regardless of
/// the state it found.
pub open spec fn spec_stop(s: WaitForStop) -> WaitForStop {
    stopped_state()
}

/// The flag after `k` successive calls to `stop`, starting from `s`.
pub open spec fn after_stops(s: WaitForStop, k: nat) -> WaitForStop
    decreases k,
{
    if k == 0 {
        s
    } else {
        spec_stop(after_stops(s, (k - 1) as nat))
    }
}

impl WaitForStop {
    /// Whether the signal has fired.
    pub closed spec fn is_stopped(self) -> bool {
        self.stopped
    }

    /// Create a new signal; it has not fired yet.
    pub fn new() -> (s: Self)
        ensures
            !s.is_stopped(),
    {
        WaitForStop { stopped: false }
    }

    /// Fire the signal. Leaves the stopped state whatever the signal held
    /// before, which makes repeated calls indistinguishable from one.
    pub fn stop(&mut self)
        ensures
            final(self).is_stopped(),
            *final(self) == spec_stop(*old(self)),
    {
        self.stopped = true;
    }

    /// Read the flag.
    pub fn query(&self) -> (b: bool)
        ensures
            b == self.is_stopped(),
    {
        self.stopped
    }
}

/// Where a task waiting for the signal stands in the double-check protocol.
#[derive(Clone, Copy, PartialEq, Eq, Structural, Debug)]
pub enum WaiterPhase {
    /// About to read the flag, not registered for a broadcast.
    Checking,
    /// Registered for the next broadcast, about to re-read the flag.
    Registered,
    /// Parked until the next broadcast reaches its registration.
    Parked,
    /// The wait is over.
    Resolved,
}

/// What a waiting task observes between two phases: a read of the stop flag,
/// or the broadcast reaching it while parked.
#[derive(Clone, Copy, PartialEq, Eq, Structural, Debug)]
pub enum WaitEvent {
    /// The flag read this value.
    Flag(bool),
    /// The broadcast woke the parked task.
    Notified,
}

/// One step of the double-check protocol. A checking task that reads the
/// flag set resolves at once; one that reads it clear registers for the next
/// broadcast. A registered task re-reads the flag: set means resolve without
/// parking, clear means park. A parked task reacts only to the broadcast,
/// which sends it back to checking. A resolved task stays resolved.
pub open spec fn spec_wait_step(p: WaiterPhase, e: WaitEvent) -> WaiterPhase {
    match p {
        WaiterPhase::Checking => match e {
            WaitEvent::Flag(set) => if set {
                WaiterPhase::Resolved
            } else {
                WaiterPhase::Registered
            },
            WaitEvent::Notified => WaiterPhase::Checking,
        },
        WaiterPhase::Registered => match e {
            WaitEvent::Flag(set) => if set {
                WaiterPhase::Resolved
            } else {
                WaiterPhase::Parked
            },
            WaitEvent::Notified => WaiterPhase::Registered,
        },
        WaiterPhase::Parked => match e {
            WaitEvent::Flag(_) => WaiterPhase::Parked,
            WaitEvent::Notified => WaiterPhase::Checking,
        },
        WaiterPhase::Resolved => WaiterPhase::Resolved,
    }
}

/// Advance a waiting task by one observation.
pub fn wait_step(p: WaiterPhase, e: WaitEvent) -> (next: WaiterPhase)
    ensures
        next == spec_wait_step(p, e),
{
    match p {
        WaiterPhase::Checking => match e {
            WaitEvent::Flag(set) => if set {
                WaiterPhase::Resolved
            } else {
                WaiterPhase::Registered
            },
            WaitEvent::Notified => WaiterPhase::Checking,
        },
        WaiterPhase::Registered => match e {
            WaitEvent::Flag(set) => if set {
                WaiterPhase::Resolved
            } else {
                WaiterPhase::Parked
            },
            WaitEvent::Notified => WaiterPhase::Registered,
        },
        WaiterPhase::Parked => match e {
            WaitEvent::Flag(_) => WaiterPhase::Parked,
            WaitEvent::Notified => WaiterPhase::Checking,
        },
        WaiterPhase::Resolved => WaiterPhase::Resolved,
    }
}

/// One full round of the protocol against the signal, as the shell performs
/// it between two parkings: read the flag, and where it was clear, register
/// and re-read. Against a stopped signal a round always resolves — the
/// waiter never parks again once the signal has fired; against one that
/// stays clear throughout the round, it parks.
pub fn wait_round(signal: &WaitForStop) -> (next: WaiterPhase)
    ensures
        next == if signal.is_stopped() {
            WaiterPhase::Resolved
        } else {
            WaiterPhase::Parked
        },
{
    let p = wait_step(WaiterPhase::Checking, WaitEvent::Flag(signal.query()));
    if p == WaiterPhase::Resolved {
        return p;
    }
    wait_step(p, WaitEvent::Flag(signal.query()))
}

/// A waiting task after a whole sequence of observations, first one first.
pub open spec fn run_waiter(p: WaiterPhase, es: Seq<WaitEvent>) -> WaiterPhase
    decreases es.len(),
{
    if es.len() == 0 {
        p
    } else {
        run_waiter(spec_wait_step(p, es[0]), es.drop_first())
    }
}

/// A resolved wait stays resolved, whatever is observed afterwards.
pub proof fn lemma_resolved_stays(es: Seq<WaitEvent>)
    ensures
        run_waiter(WaiterPhase::Resolved, es) == WaiterPhase::Resolved,
    decreases es.len(),
{
    if es.len() > 0 {
        lemma_resolved_stays(es.drop_first());
    }
}

/// A wait that starts after the signal has fired resolves on its very first
/// flag read, without registering and without parking.
pub proof fn lemma_immediate_resolution()
    ensures
        spec_wait_step(WaiterPhase::Checking, WaitEvent::Flag(true)) == WaiterPhase::Resolved,
{
}

/// The double check at work: a task that is about to decide — checking or
/// freshly registered — never parks once the flag reads set. Parking is only
/// reached through a clear read taken after registering.
pub proof fn lemma_no_park_once_stopped()
    ensures
        forall|p: WaiterPhase|
            p != WaiterPhase::Parked ==> spec_wait_step(p, WaitEvent::Flag(true))
                != WaiterPhase::Parked,
        forall|p: WaiterPhase|
            p != WaiterPhase::Parked && spec_wait_step(p, WaitEvent::Flag(false))
                == WaiterPhase::Parked ==> p == WaiterPhase::Registered,
{
}

/// No missed wakeup: once the signal has fired, every flag read returns set
/// and the broadcast reaches every parked registration. One notification
/// followed by one flag read then resolves a waiter from any phase, and it
/// stays resolved through whatever follows.
pub proof fn lemma_no_missed_wakeup(p: WaiterPhase, rest: Seq<WaitEvent>)
    ensures
        run_waiter(p, seq![WaitEvent::Notified, WaitEvent::Flag(true)] + rest)
            == WaiterPhase::Resolved,
{
    let es = seq![WaitEvent::Notified, WaitEvent::Flag(true)] + rest;
    let es1 = es.drop_first();
    let es2 = es1.drop_first();
    assert(es.len() == 2 + rest.len());
    assert(es[0] == WaitEvent::Notified);
    assert(es1[0] == WaitEvent::Flag(true));
    assert(es2 =~= rest);
    let p1 = spec_wait_step(p, WaitEvent::Notified);
    let p2 = spec_wait_step(p1, WaitEvent::Flag(true));
    assert(run_waiter(p, es) == run_waiter(p1, es1));
    assert(run_waiter(p1, es1) == run_waiter(p2, es2));
    assert(p2 == WaiterPhase::Resolved);
    lemma_resolved_stays(rest);
}

/// What an observation can look like once `stop` has completed: every flag
/// read returns set; the broadcast may reach the task at any time.
pub open spec fn event_after_stop(e: WaitEvent) -> bool {
    match e {
        WaitEvent::Flag(set) => set,
        WaitEvent::Notified => true,
    }
}

/// Every observation in the sequence is consistent with a completed `stop`.
pub open spec fn all_after_stop(es: Seq<WaitEvent>) -> bool {
    forall|k: int| 0 <= k < es.len() ==> event_after_stop(#[trigger] es[k])
}

/// A task that is not parked resolves at its first flag read after `stop`:
/// under observations consistent with a completed `stop`, one flag read
/// anywhere in the sequence is enough.
pub proof fn lemma_flag_read_resolves(p: WaiterPhase, es: Seq<WaitEvent>, j: int)
    requires
        p != WaiterPhase::Parked,
        all_after_stop(es),
        0 <= j < es.len(),
        es[j] is Flag,
    ensures
        run_waiter(p, es) == WaiterPhase::Resolved,
    decreases es.len(),
{
    let es1 = es.drop_first();
    assert(all_after_stop(es1)) by {
        assert(forall|k: int| 0 <= k < es1.len() ==> es1[k] == es[k + 1]);
    }
    if p == WaiterPhase::Resolved {
        lemma_resolved_stays(es);
    } else {
        match es[0] {
            WaitEvent::Flag(set) => {
                assert(event_after_stop(es[0]));
                assert(spec_wait_step(p, es[0]) == WaiterPhase::Resolved);
                lemma_resolved_stays(es1);
            },
            WaitEvent::Notified => {
                assert(spec_wait_step(p, es[0]) == p);
                lemma_flag_read_resolves(p, es1, j - 1);
            },
        }
    }
}

/// No missed wakeup, under any fair schedule: once `stop` has completed,
/// every flag read returns set, and the broadcast reaches every parked
/// registration. Whatever phase a waiter stands in, any sequence of such
/// observations that delivers a notification and, later, a flag read leaves
/// the waiter resolved.
pub proof fn lemma_eventual_resolution(p: WaiterPhase, es: Seq<WaitEvent>, i: int, j: int)
    requires
        all_after_stop(es),
        0 <= i < j < es.len(),
        es[i] is Notified,
        es[j] is Flag,
    ensures
        run_waiter(p, es) == WaiterPhase::Resolved,
    decreases es.len(),
{
    if p != WaiterPhase::Parked {
        lemma_flag_read_resolves(p, es, j);
    } else {
        let es1 = es.drop_first();
        assert(all_after_stop(es1)) by {
            assert(forall|k: int| 0 <= k < es1.len() ==> es1[k] == es[k + 1]);
        }
        match es[0] {
            WaitEvent::Notified => {
                assert(spec_wait_step(p, es[0]) == WaiterPhase::Checking);
                lemma_flag_read_resolves(WaiterPhase::Checking, es1, j - 1);
            },
            WaitEvent::Flag(_) => {
                assert(spec_wait_step(p, es[0]) == WaiterPhase::Parked);
                lemma_eventual_resolution(WaiterPhase::Parked, es1, i - 1, j - 1);
            },
        }
    }
}

/// Broadcast completeness: the one firing resolves every concurrently
/// waiting task, in whatever phase each of them stands.
pub proof fn lemma_broadcast_completeness(waiters: Seq<WaiterPhase>, rest: Seq<WaitEvent>)
    ensures
        forall|i: int|
            0 <= i < waiters.len() ==> run_waiter(
                #[trigger] waiters[i],
                seq![WaitEvent::Notified, WaitEvent::Flag(true)] + rest,
            ) == WaiterPhase::Resolved,
{
    assert forall|i: int| 0 <= i < waiters.len() implies run_waiter(
        #[trigger] waiters[i],
        seq![WaitEvent::Notified, WaitEvent::Flag(true)] + rest,
    ) == WaiterPhase::Resolved by {
        lemma_no_missed_wakeup(waiters[i], rest);
    }
}

/// Any number `k >= 1` of calls to `stop` leaves exactly the state that a
/// single call leaves, and that state reads as stopped.
pub proof fn lemma_stop_idempotent(s: WaitForStop, k: nat)
    requires
        k >= 1,
    ensures
        after_stops(s, k) == after_stops(s, 1),
        after_stops(s, k).is_stopped(),
    decreases k,
{
    if k > 1 {
        lemma_stop_idempotent(s, (k - 1) as nat);
    }
}

} // verus!
