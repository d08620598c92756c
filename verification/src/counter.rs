//! The shared counter demonstration and its interleaving model.
//!
//! The foreground increments the counter on each detected rising edge of
//! a boolean condition; a periodic handler reads the current value for
//! reporting and resets it to zero. Both operations run under the token
//! discipline, so they are atomic with respect to each other, and an
//! arbitrary interleaving of the two contexts is a sequence of atomic
//! [`CounterEvent`]s. The trace model below states, and
//! [`lemma_drain_observes_increments_since_previous`] proves, that the
//! value observed at each drain equals exactly the number of increments
//! since the previous drain — no loss, no double count.

use vstd::prelude::*;

use crate::cell::GuardedCell;
use crate::critical::CriticalSectionManager;
use crate::critical::CsToken;

verus! {

/// One atomic guarded operation on the shared counter: a foreground
/// increment, or a periodic drain (read for reporting, then reset).
#[derive(Clone, Copy, Debug, PartialEq, Eq, Structural)]
pub enum CounterEvent {
    Increment,
    Drain,
}

/// The demonstration entity: a guarded cell holding an unsigned counter,
/// initially zero.
pub struct SharedCounter {
    cell: GuardedCell<u64>,
}

impl SharedCounter {
    /// The current counter value.
    pub closed spec fn value(self) -> u64 {
        self.cell@
    }

    /// A counter starting at zero.
    pub fn new() -> (r: Self)
        ensures
            r.value() == 0,
    {
        SharedCounter { cell: GuardedCell::new(0) }
    }

    /// The foreground operation: adds one to the counter, atomically
    /// with respect to every handler because the caller holds the token.
    pub fn increment(&mut self, token: &CsToken)
        requires
            old(self).value() < u64::MAX,
        ensures
            final(self).value() == old(self).value() + 1,
    {
        let v = self.cell.get(token);
        self.cell.set(token, v + 1);
    }

    /// A guarded read of the current value, without the reset.
    pub fn current(&self, token: &CsToken) -> (r: u64)
        ensures
            r == self.value(),
    {
        self.cell.get(token)
    }

    /// The handler operation: returns the current value for reporting
    /// and resets the counter to zero, as one atomic guarded operation.
    pub fn drain(&mut self, token: &CsToken) -> (observed: u64)
        ensures
            observed == old(self).value(),
            final(self).value() == 0,
    {
        self.cell.replace(token, 0)
    }
}

/// The counter value after replaying `events` from zero: an increment
/// adds one, a drain resets to zero.
pub open spec fn counter_after(events: Seq<CounterEvent>) -> nat
    decreases events.len(),
{
    if events.len() == 0 {
        0
    } else {
        match events.last() {
            CounterEvent::Increment => counter_after(events.drop_last()) + 1,
            CounterEvent::Drain => 0,
        }
    }
}

/// The number of increments anywhere in `events`.
pub open spec fn count_increments(events: Seq<CounterEvent>) -> nat
    decreases events.len(),
{
    if events.len() == 0 {
        0
    } else {
        count_increments(events.drop_last()) + if events.last() is Increment {
            1nat
        } else {
            0nat
        }
    }
}

/// The index of the last drain in `events`, or -1 when no drain has
/// happened yet.
pub open spec fn last_drain_index(events: Seq<CounterEvent>) -> int
    decreases events.len(),
{
    if events.len() == 0 {
        -1
    } else if events.last() is Drain {
        events.len() - 1
    } else {
        last_drain_index(events.drop_last())
    }
}

/// The number of increments after the last drain in `events` (after the
/// start, when no drain has happened yet).
pub open spec fn increments_since_last_drain(events: Seq<CounterEvent>) -> nat {
    count_increments(events.subrange(last_drain_index(events) + 1, events.len() as int))
}

/// The sum of the values observed by the drains in `events`, in order.
pub open spec fn total_drained(events: Seq<CounterEvent>) -> nat
    decreases events.len(),
{
    if events.len() == 0 {
        0
    } else if events.last() is Drain {
        total_drained(events.drop_last()) + counter_after(events.drop_last())
    } else {
        total_drained(events.drop_last())
    }
}

/// The values observed by the drains in `events`, in order.
pub open spec fn observations_of(events: Seq<CounterEvent>) -> Seq<nat>
    decreases events.len(),
{
    if events.len() == 0 {
        Seq::empty()
    } else if events.last() is Drain {
        observations_of(events.drop_last()).push(counter_after(events.drop_last()))
    } else {
        observations_of(events.drop_last())
    }
}

proof fn lemma_last_drain_index_bounds(events: Seq<CounterEvent>)
    ensures
        -1 <= last_drain_index(events) < events.len(),
    decreases events.len(),
{
    if events.len() != 0 && !(events.last() is Drain) {
        lemma_last_drain_index_bounds(events.drop_last());
    }
}

/// The counter never exceeds the number of events replayed.
pub proof fn lemma_counter_bounded(events: Seq<CounterEvent>)
    ensures
        counter_after(events) <= events.len(),
    decreases events.len(),
{
    if events.len() != 0 {
        lemma_counter_bounded(events.drop_last());
    }
}

/// After any trace, the counter holds exactly the number of increments
/// since the last drain.
pub proof fn lemma_counter_is_increments_since_last_drain(events: Seq<CounterEvent>)
    ensures
        counter_after(events) == increments_since_last_drain(events),
    decreases events.len(),
{
    lemma_last_drain_index_bounds(events);
    if events.len() == 0 {
        assert(events.subrange(0, 0) =~= Seq::<CounterEvent>::empty());
    } else if events.last() is Drain {
        assert(events.subrange(events.len() as int, events.len() as int) =~= Seq::<
            CounterEvent,
        >::empty());
    } else {
        let prefix = events.drop_last();
        lemma_counter_is_increments_since_last_drain(prefix);
        lemma_last_drain_index_bounds(prefix);
        let j = last_drain_index(events);
        let tail = events.subrange(j + 1, events.len() as int);
        assert(tail.last() == events.last());
        assert(tail.drop_last() =~= prefix.subrange(j + 1, prefix.len() as int));
    }
}

/// Law: over any interleaving of foreground increments and periodic
/// drains under the token-gated cell, the value observed by the drain at
/// position `i` equals exactly the number of increments since the
/// previous drain — no loss, no double count.
pub proof fn lemma_drain_observes_increments_since_previous(events: Seq<CounterEvent>, i: int)
    requires
        0 <= i < events.len(),
        events[i] is Drain,
    ensures
        counter_after(events.take(i)) == increments_since_last_drain(events.take(i)),
{
    lemma_counter_is_increments_since_last_drain(events.take(i));
}

/// Law: across a whole trace, every increment is observed by exactly one
/// drain or still sits in the counter: nothing is lost and nothing is
/// counted twice.
pub proof fn lemma_conservation(events: Seq<CounterEvent>)
    ensures
        total_drained(events) + counter_after(events) == count_increments(events),
    decreases events.len(),
{
    if events.len() != 0 {
        lemma_conservation(events.drop_last());
    }
}

/// Replays a sequence of counter events against a real [`SharedCounter`],
/// entering a critical section around each operation, and returns the
/// values the drains observed. The result matches the trace model
/// exactly.
pub fn run_counter_trace(events: &Vec<CounterEvent>, manager: &mut CriticalSectionManager) -> (observations: Vec<u64>)
    requires
        !old(manager).is_active(),
        events@.len() < u64::MAX,
    ensures
        !final(manager).is_active(),
        observations@.len() == observations_of(events@).len(),
        forall|j: int|
            0 <= j < observations@.len() ==> observations@[j] as nat == observations_of(events@)[j],
{
    let mut counter = SharedCounter::new();
    let mut observations: Vec<u64> = Vec::new();
    let n = events.len();
    assert(events@.take(0) =~= Seq::<CounterEvent>::empty());
    for i in 0..n
        invariant
            n == events@.len() < u64::MAX,
            !manager.is_active(),
            counter.value() as nat == counter_after(events@.take(i as int)),
            observations@.len() == observations_of(events@.take(i as int)).len(),
            forall|j: int|
                0 <= j < observations@.len() ==> observations@[j] as nat == observations_of(
                    events@.take(i as int),
                )[j],
    {
        proof {
            assert(events@.take(i + 1).drop_last() =~= events@.take(i as int));
            assert(events@.take(i + 1).last() == events@[i as int]);
            lemma_counter_bounded(events@.take(i as int));
        }
        let token = manager.enter();
        match events[i] {
            CounterEvent::Increment => {
                counter.increment(&token);
            },
            CounterEvent::Drain => {
                let observed = counter.drain(&token);
                observations.push(observed);
            },
        }
        manager.exit(token);
    }
    assert(events@.take(n as int) =~= events@);
    observations
}

} // verus!
