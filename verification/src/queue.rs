use vstd::prelude::*;

use crate::record::DataStruct;

verus! {

/// What a consumer's dequeue observes.
#[derive(Clone, Copy, PartialEq, Eq, Structural, Debug)]
pub enum DequeueOutcome {
    /// The oldest queued record, removed from the queue.
    Received(DataStruct),
    /// The queue is empty but producers may still enqueue: a blocking
    /// consumer would wait here.
    Pending,
    /// The queue is empty and every producing end has been released: the
    /// consumer's loop ends.
    Closed,
}

/// A model of the bounded, ordered, multi-producer/single-consumer channel
/// that feeds the worker: records leave in the order they were accepted,
/// occupancy never exceeds the configured capacity, and a full queue
/// refuses new records until the consumer drains one (backpressure).
pub struct RecordQueue {
    /// The queued records, oldest first.
    pub items: Vec<DataStruct>,
    /// The configured bound on occupancy.
    pub capacity: usize,
    /// Every producing end has been released; no record will be accepted
    /// any more.
    pub shut: bool,
}

impl RecordQueue {
    /// The queue's one invariant: occupancy never exceeds the configured
    /// capacity.
    pub open spec fn wf(self) -> bool {
        self.items@.len() <= self.capacity
    }

    /// An empty, open queue with the given capacity bound.
    pub fn new(capacity: usize) -> (q: RecordQueue)
        ensures
            q.wf(),
            q.items@ == Seq::<DataStruct>::empty(),
            q.capacity == capacity,
            !q.shut,
    {
        RecordQueue { items: Vec::new(), capacity, shut: false }
    }

    /// How many records are queued right now.
    pub fn len(&self) -> (n: usize)
        ensures
            n == self.items@.len(),
    {
        self.items.len()
    }

    /// Offer a record to the back of the queue. It is accepted exactly
    /// when the queue is still open and below its capacity; a producer
    /// whose record is refused must wait (block) and offer it again.
    pub fn try_enqueue(&mut self, r: DataStruct) -> (accepted: bool)
        requires
            old(self).wf(),
        ensures
            final(self).wf(),
            accepted == (!old(self).shut && old(self).items@.len() < old(self).capacity),
            accepted ==> final(self).items@ == old(self).items@.push(r),
            !accepted ==> final(self).items@ == old(self).items@,
            final(self).capacity == old(self).capacity,
            final(self).shut == old(self).shut,
            final(self).items@.len() <= final(self).capacity,
    {
        if self.shut {
            false
        } else if self.items.len() < self.capacity {
            self.items.push(r);
            true
        } else {
            false
        }
    }

    /// Release the producing ends: already-queued records stay to be
    /// drained, but nothing further is accepted.
    pub fn close(&mut self)
        requires
            old(self).wf(),
        ensures
            final(self).wf(),
            final(self).shut,
            final(self).items@ == old(self).items@,
            final(self).capacity == old(self).capacity,
    {
        self.shut = true;
    }

    /// Take the oldest record, in the order the producers' records were
    /// accepted. An empty open queue reports `Pending` (a blocking
    /// consumer waits); an empty closed queue reports `Closed` (the
    /// consumer's loop ends).
    pub fn dequeue(&mut self) -> (r: DequeueOutcome)
        requires
            old(self).wf(),
        ensures
            final(self).wf(),
            final(self).capacity == old(self).capacity,
            final(self).shut == old(self).shut,
            old(self).items@.len() > 0 ==> {
                &&& r == DequeueOutcome::Received(old(self).items@[0])
                &&& final(self).items@ == old(self).items@.remove(0)
            },
            old(self).items@.len() == 0 ==> {
                &&& final(self).items@ == old(self).items@
                &&& r == (if old(self).shut {
                    DequeueOutcome::Closed
                } else {
                    DequeueOutcome::Pending
                })
            },
    {
        if self.items.len() > 0 {
            let r = self.items.remove(0);
            DequeueOutcome::Received(r)
        } else if self.shut {
            DequeueOutcome::Closed
        } else {
            DequeueOutcome::Pending
        }
    }
}

} // verus!
