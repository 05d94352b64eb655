//! The single-flight guard: at most one unit of work holds the backend.
use vstd::prelude::*;

verus! {

/// Milliseconds a unit of work waits before it polls a busy guard again.
pub const POLL_INTERVAL_MS: u64 = 100;

/// What a poll of the guard tells a waiting unit of work.
#[derive(Clone, Copy, Debug, PartialEq, Eq, Structural)]
pub enum GuardPoll {
    /// The guard was free and is now held by the caller.
    Claimed,
    /// The guard is busy: poll again after this many milliseconds.
    Wait(u64),
}

/// The outcome of a poll on a guard that is busy or free.
pub open spec fn poll_outcome(busy: bool) -> GuardPoll {
    if busy {
        GuardPoll::Wait(POLL_INTERVAL_MS)
    } else {
        GuardPoll::Claimed
    }
}

/// A flag that is set while a native call is in progress.
pub struct ExecutionGuard {
    busy: bool,
}

impl View for ExecutionGuard {
    type V = bool;

    /// Whether the guard is held.
    closed spec fn view(&self) -> bool {
        self.busy
    }
}

impl ExecutionGuard {
    /// A free guard.
    pub fn new() -> (r: Self)
        ensures
            !r@,
    {
        ExecutionGuard { busy: false }
    }

    /// Whether a unit of work holds the guard.
    pub fn is_busy(&self) -> (r: bool)
        ensures
            r == self@,
    {
        self.busy
    }

    /// Claims a free guard; a busy one stays as it is.
    pub fn try_claim(&mut self) -> (claimed: bool)
        ensures
            claimed == !old(self)@,
            final(self)@,
    {
        if self.busy {
            false
        } else {
            self.busy = true;
            true
        }
    }

    /// Claims the guard if it is free, else says how long to wait.
    pub fn poll(&mut self) -> (r: GuardPoll)
        ensures
            r == poll_outcome(old(self)@),
            final(self)@,
    {
        if self.try_claim() {
            GuardPoll::Claimed
        } else {
            GuardPoll::Wait(POLL_INTERVAL_MS)
        }
    }

    /// Frees the guard, whatever the holder's work came to.
    pub fn release(&mut self)
        ensures
            !final(self)@,
    {
        self.busy = false;
    }
}

/// A step of a unit of work against the guard, by its identifier.
pub enum GuardEvent {
    /// The unit polls the guard.
    Poll(u64),
    /// The unit, which holds the guard, lets it go.
    Release(u64),
}

/// The guard's flag and the set of units that hold it, after one event.
pub open spec fn step(state: (bool, Set<u64>), event: GuardEvent) -> (bool, Set<u64>) {
    match event {
        GuardEvent::Poll(unit) => (
            true,
            if poll_outcome(state.0) is Claimed {
                state.1.insert(unit)
            } else {
                state.1
            },
        ),
        GuardEvent::Release(unit) => (false, state.1.remove(unit)),
    }
}

/// The guard's flag and its holders after a sequence of events, starting free.
pub open spec fn run(events: Seq<GuardEvent>) -> (bool, Set<u64>)
    decreases events.len(),
{
    if events.len() == 0 {
        (false, Set::empty())
    } else {
        step(run(events.drop_last()), events.last())
    }
}

/// Every release in `events` comes from a unit that holds the guard at that point.
pub open spec fn releases_by_holders(events: Seq<GuardEvent>) -> bool {
    forall|i: int|
        0 <= i < events.len() ==> (#[trigger] events[i] matches GuardEvent::Release(unit) ==> run(
            events.take(i),
        ).1.contains(unit))
}

/// The guard is held exactly when one unit holds it.
pub open spec fn single_holder(state: (bool, Set<u64>)) -> bool {
    &&& state.1.finite()
    &&& state.1.len() <= 1
    &&& state.0 <==> state.1.len() == 1
}

/// However units of work interleave their polls and releases, at most one of
/// them holds the guard at a time, so no two native calls overlap.
pub proof fn lemma_single_flight(events: Seq<GuardEvent>)
    requires
        releases_by_holders(events),
    ensures
        single_holder(run(events)),
    decreases events.len(),
{
    if events.len() > 0 {
        let prefix = events.drop_last();
        assert forall|i: int|
            0 <= i < prefix.len() implies (#[trigger] prefix[i] matches GuardEvent::Release(unit)
            ==> run(prefix.take(i)).1.contains(unit)) by {
            assert(prefix.take(i) =~= events.take(i));
            assert(prefix[i] == events[i]);
        }
        lemma_single_flight(prefix);
        let before = run(prefix);
        let last = events.last();
        match last {
            GuardEvent::Poll(unit) => {
                if !before.0 {
                    assert(before.1.len() == 0);
                    assert(before.1 =~= Set::empty());
                    assert(before.1.insert(unit) =~= set![unit]);
                }
            },
            GuardEvent::Release(unit) => {
                assert(events[events.len() - 1] == last);
                assert(events.take(events.len() - 1) =~= prefix);
                assert(before.1.contains(unit));
                assert(before.1.remove(unit).len() == 0);
            },
        }
    }
}

/// Once the holder releases the guard, whatever its call came to, the next
/// unit that polls claims it and becomes the only holder.
pub proof fn lemma_release_then_claim(events: Seq<GuardEvent>, holder: u64, next: u64)
    requires
        releases_by_holders(events),
        run(events).1.contains(holder),
    ensures
        !run(events.push(GuardEvent::Release(holder))).0,
        poll_outcome(run(events.push(GuardEvent::Release(holder))).0) == GuardPoll::Claimed,
        run(events.push(GuardEvent::Release(holder)).push(GuardEvent::Poll(next))).1 == set![next],
{
    lemma_single_flight(events);
    let released = events.push(GuardEvent::Release(holder));
    assert(released.drop_last() =~= events);
    assert(released.push(GuardEvent::Poll(next)).drop_last() =~= released);
    assert(run(events).1.remove(holder).len() == 0);
    assert(run(events).1.remove(holder) =~= Set::empty());
    assert(Set::<u64>::empty().insert(next) =~= set![next]);
}

} // verus!
