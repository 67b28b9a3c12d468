//! The best-effort sink of audit, event and session records: a bounded queue
//! that drops what does not fit, so that writing records never holds up a
//! reply.
use vstd::prelude::*;

verus! {

/// A bounded first-in, first-out queue of records waiting to be written.
pub struct PersistQueue<T> {
    items: Vec<T>,
    capacity: usize,
    dropped: usize,
}

impl<T> PersistQueue<T> {
    /// The records waiting, oldest first.
    pub closed spec fn pending(&self) -> Seq<T> {
        self.items@
    }

    /// How many records the queue holds at most.
    pub closed spec fn bound(&self) -> nat {
        self.capacity as nat
    }

    /// How many records were dropped, up to `usize::MAX`.
    pub closed spec fn dropped_count(&self) -> nat {
        self.dropped as nat
    }

    /// The queue holds no more than its bound.
    pub closed spec fn wf(&self) -> bool {
        self.items@.len() <= self.capacity
    }

    /// An empty queue that holds at most `capacity` records.
    pub fn new(capacity: usize) -> (r: PersistQueue<T>)
        ensures
            r.wf(),
            r.pending().len() == 0,
            r.bound() == capacity,
            r.dropped_count() == 0,
    {
        PersistQueue { items: Vec::new(), capacity, dropped: 0 }
    }

    /// Queues `record` where there is room, else drops it and counts the drop.
    pub fn offer(&mut self, record: T) -> (r: bool)
        requires
            old(self).wf(),
        ensures
            final(self).wf(),
            final(self).bound() == old(self).bound(),
            r == (old(self).pending().len() < old(self).bound()),
            r ==> final(self).pending() == old(self).pending().push(record)
                && final(self).dropped_count() == old(self).dropped_count(),
            !r ==> final(self).pending() == old(self).pending() && final(self).dropped_count() == (
            if old(self).dropped_count() < usize::MAX {
                old(self).dropped_count() + 1
            } else {
                old(self).dropped_count()
            }),
    {
        if self.items.len() < self.capacity {
            self.items.push(record);
            true
        } else {
            if self.dropped < usize::MAX {
                self.dropped = self.dropped + 1;
            }
            false
        }
    }

    /// Takes every waiting record, oldest first, and leaves the queue empty.
    pub fn drain(&mut self) -> (r: Vec<T>)
        requires
            old(self).wf(),
        ensures
            final(self).wf(),
            r@ == old(self).pending(),
            final(self).pending().len() == 0,
            final(self).bound() == old(self).bound(),
            final(self).dropped_count() == old(self).dropped_count(),
    {
        let mut taken: Vec<T> = Vec::new();
        std::mem::swap(&mut taken, &mut self.items);
        taken
    }

    /// How many records were dropped.
    pub fn dropped(&self) -> (r: usize)
        ensures
            r == self.dropped_count(),
    {
        self.dropped
    }

    /// How many records wait.
    pub fn len(&self) -> (r: usize)
        ensures
            r == self.pending().len(),
    {
        self.items.len()
    }
}

} // verus!
