use vstd::prelude::*;

verus! {

/// Process-wide registry of live websocket sessions.
///
/// Each session increments the counter exactly once when it starts and
/// decrements it exactly once when it stops, so at any instant the counter
/// equals the number of sessions that have started and not yet stopped.
pub struct AppContext {
    /// Number of sessions that have started and not yet stopped.
    pub counter: usize,
}

impl AppContext {
    /// A fresh registry with no live sessions.
    pub fn new() -> (r: AppContext)
        ensures
            r.counter == 0,
    {
        AppContext { counter: 0 }
    }

    /// Record that one more session is live.
    pub fn increment(&mut self)
        requires
            old(self).counter < usize::MAX,
        ensures
            final(self).counter == old(self).counter + 1,
    {
        self.counter = self.counter + 1;
    }

    /// Record that one live session has terminated.
    pub fn decrement(&mut self)
        requires
            old(self).counter > 0,
        ensures
            final(self).counter == old(self).counter - 1,
    {
        self.counter = self.counter - 1;
    }

    /// The current number of live sessions. The value may be stale by the
    /// time a caller observes it; no stronger guarantee is intended.
    pub fn snapshot(&self) -> (n: usize)
        ensures
            n == self.counter,
    {
        self.counter
    }
}

/// One lifecycle event observed by the registry: a session starting
/// (increment) or terminating (decrement).
pub enum RegistryEvent {
    Start,
    Terminate,
}

/// How many of the events are session starts.
pub open spec fn starts_in(events: Seq<RegistryEvent>) -> int
    decreases events.len(),
{
    if events.len() == 0 {
        0
    } else {
        starts_in(events.drop_last()) + if events.last() is Start {
            1int
        } else {
            0int
        }
    }
}

/// How many of the events are session terminations.
pub open spec fn terminations_in(events: Seq<RegistryEvent>) -> int
    decreases events.len(),
{
    if events.len() == 0 {
        0
    } else {
        terminations_in(events.drop_last()) + if events.last() is Terminate {
            1int
        } else {
            0int
        }
    }
}

/// The counter value reached by applying each event in order, starting from
/// `initial`: `Start` adds one, `Terminate` subtracts one, exactly as
/// `increment` and `decrement` do.
pub open spec fn run_registry(initial: int, events: Seq<RegistryEvent>) -> int
    decreases events.len(),
{
    if events.len() == 0 {
        initial
    } else {
        run_registry(initial, events.drop_last()) + match events.last() {
            RegistryEvent::Start => 1int,
            RegistryEvent::Terminate => -1int,
        }
    }
}

/// Registry balance: after any interleaving of session starts and
/// terminations, a registry that began empty holds exactly the number of
/// starts minus the number of terminations; in particular it holds zero once
/// every started session has terminated.
pub proof fn lemma_registry_balance(events: Seq<RegistryEvent>)
    ensures
        run_registry(0, events) == starts_in(events) - terminations_in(events),
        starts_in(events) == terminations_in(events) ==> run_registry(0, events) == 0,
    decreases events.len(),
{
    if events.len() > 0 {
        lemma_registry_balance(events.drop_last());
    }
}

/// The registry is never observed negative: as long as no prefix of the
/// event sequence terminates more sessions than it has started, the counter
/// is non-negative at every instant.
pub proof fn lemma_registry_never_negative(events: Seq<RegistryEvent>)
    requires
        forall|i: int|
            0 <= i <= events.len() ==> terminations_in(#[trigger] events.take(i)) <= starts_in(
                events.take(i),
            ),
    ensures
        forall|i: int| 0 <= i <= events.len() ==> run_registry(0, #[trigger] events.take(i)) >= 0,
{
    assert forall|i: int| 0 <= i <= events.len() implies run_registry(
        0,
        #[trigger] events.take(i),
    ) >= 0 by {
        lemma_registry_balance(events.take(i));
    }
}

} // verus!
