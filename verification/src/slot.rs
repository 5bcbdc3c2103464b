//! The single-slot, latest-wins hand-off between the tracking receiver and
//! the protocol client.
//!
//! Capacity one, overwrite on full: the consumer only ever wants the
//! freshest sample, never a backlog, so a publish replaces whatever an
//! earlier publish left and a take empties the slot. The two loops share
//! one slot under a lock owned by the caller; the semantics live here.

use vstd::prelude::*;

verus! {

/// A mailbox of capacity one with overwrite-on-full semantics.
pub struct LatestSlot<T> {
    slot: Option<T>,
}

impl<T> LatestSlot<T> {
    /// What the slot holds: the most recently published, not yet taken
    /// value, if any.
    pub closed spec fn view(&self) -> Option<T> {
        self.slot
    }

    /// An empty slot.
    pub fn new() -> (r: LatestSlot<T>)
        ensures
            r@ is None,
    {
        LatestSlot { slot: None }
    }

    /// Publish a value, discarding any unconsumed one: the slot then holds
    /// exactly the new value.
    pub fn publish(&mut self, value: T)
        ensures
            final(self)@ == Some(value),
            *final(self) == spec_publish(*old(self), value),
    {
        self.slot = Some(value);
    }

    /// Take the freshest value, leaving the slot empty; `None` when nothing
    /// was published since the last take.
    pub fn take(&mut self) -> (r: Option<T>)
        ensures
            r == old(self)@,
            final(self)@ is None,
    {
        self.slot.take()
    }

    /// Whether the slot currently holds a value.
    pub fn is_full(&self) -> (r: bool)
        ensures
            r == (self@ is Some),
    {
        self.slot.is_some()
    }
}

/// Latest wins: when two values are published before the consumer reads,
/// the take observes only the second.
pub proof fn lemma_latest_wins<T>(s0: LatestSlot<T>, f1: T, f2: T)
    ensures
        spec_publish(spec_publish(s0, f1), f2)@ == Some(f2),
{
}

/// What `publish` leaves in the slot, at the specification level.
pub closed spec fn spec_publish<T>(s: LatestSlot<T>, value: T) -> LatestSlot<T> {
    LatestSlot { slot: Some(value) }
}

} // verus!
