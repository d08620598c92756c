//! The unguarded counter, kept only as a documented negative example.
//!
//! Here the drain is not one atomic guarded operation but two separate
//! machine steps — read the value for reporting, then write zero — with
//! no token discipline around them. On a single core an increment
//! asserted between those two steps lands after the observation and is
//! wiped by the reset without ever being reported: a silently lost
//! increment, with no detection mechanism. This is precisely the failure
//! mode the guarded abstraction exists to rule out; nothing in this
//! module belongs in a production code path.

use vstd::prelude::*;

verus! {

/// A counter shared across contexts without the token discipline. Its
/// operations are the individual machine steps an unguarded
/// read-modify-write decomposes into, so an interleaving can be written
/// down step by step.
pub struct RacyCounter {
    stored: u64,
}

impl RacyCounter {
    /// The current counter value.
    pub closed spec fn value(self) -> u64 {
        self.stored
    }

    /// A counter starting at zero.
    pub fn new() -> (r: Self)
        ensures
            r.value() == 0,
    {
        RacyCounter { stored: 0 }
    }

    /// An increment, arriving from a handler: a single store on this
    /// machine, so it is atomic with respect to the foreground.
    pub fn increment(&mut self)
        requires
            old(self).value() < u64::MAX,
        ensures
            final(self).value() == old(self).value() + 1,
    {
        self.stored = self.stored + 1;
    }

    /// First half of the unguarded drain: the foreground reads the value
    /// for reporting. Nothing stops a handler from running before the
    /// matching [`RacyCounter::reset`].
    pub fn observe(&self) -> (r: u64)
        ensures
            r == self.value(),
    {
        self.stored
    }

    /// Second half of the unguarded drain: the foreground writes zero,
    /// wiping whatever arrived since the observation.
    pub fn reset(&mut self)
        ensures
            final(self).value() == 0,
    {
        self.stored = 0;
    }
}

/// The documented failure mode, written out as one concrete
/// interleaving: five increments are observed, a sixth lands between the
/// foreground's observation and its reset, and the reset wipes it. The
/// result pairs the increments made with the increments ever observed:
/// six were made, five were reported, one is gone without a trace. Under
/// [`crate::counter::SharedCounter`] the same schedule is impossible,
/// because the drain is a single guarded operation
/// ([`crate::counter::lemma_conservation`] rules the discrepancy out for
/// every trace).
pub fn lost_increment_interleaving() -> (r: (u64, u64))
    ensures
        r.0 == 6,
        r.1 == 5,
        r.1 < r.0,
{
    let mut counter = RacyCounter::new();
    let mut i: u64 = 0;
    while i < 5
        invariant
            i <= 5,
            counter.value() == i,
        decreases 5 - i,
    {
        counter.increment();
        i = i + 1;
    }
    let reported = counter.observe();
    counter.increment();
    counter.reset();
    let after_reset = counter.observe();
    (6, reported + after_reset)
}

} // verus!
