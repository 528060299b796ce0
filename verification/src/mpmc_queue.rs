//! An unbounded multi-producer/multi-consumer FIFO queue: the state of a
//! mutex-plus-broadcast-condition-variable monitor.
//!
//! `enqueue` always has room (no backpressure). `dequeue` is the
//! non-blocking consumer call; `dequeue_blocking` specifies the step a
//! blocked consumer performs once the queue is non-empty, after the
//! broadcast wake-up and predicate re-check that happen in the monitor
//! shell outside the verified core.

use crate::errors::SyncError;
use std::collections::VecDeque;
use vstd::prelude::*;

verus! {

/// An unbounded FIFO for any number of producers and consumers.
pub struct MPMCQueue<T> {
    queue: VecDeque<T>,
}

impl<T> View for MPMCQueue<T> {
    type V = Seq<T>;

    closed spec fn view(&self) -> Seq<T> {
        self.queue@
    }
}

impl<T> MPMCQueue<T> {
    /// An empty queue.
    pub fn new() -> (q: Self)
        ensures
            q@ == Seq::<T>::empty(),
    {
        MPMCQueue { queue: VecDeque::new() }
    }

    /// Appends `item` at the tail. Never blocks and never refuses.
    pub fn enqueue(&mut self, item: T)
        ensures
            final(self)@ == old(self)@.push(item),
    {
        self.queue.push_back(item);
    }

    /// Non-blocking dequeue: the head element, or `None` when the queue
    /// is empty, with no state change.
    pub fn dequeue(&mut self) -> (r: Option<T>)
        ensures
            old(self)@.len() > 0 ==> r == Some(old(self)@.first())
                && final(self)@ == old(self)@.drop_first(),
            old(self)@.len() == 0 ==> r is None && final(self)@ == old(self)@,
    {
        self.queue.pop_front()
    }

    /// The step a blocking dequeue performs once at least one element is
    /// present: removes and returns the head.
    pub fn dequeue_blocking(&mut self) -> (item: T)
        requires
            old(self)@.len() > 0,
        ensures
            item == old(self)@.first(),
            final(self)@ == old(self)@.drop_first(),
    {
        match self.queue.pop_front() {
            Some(v) => v,
            None => unreached(),
        }
    }

    /// The decision step of a deadline-bounded dequeue, taken under the
    /// lock on each attempt: removes the head when one exists; otherwise
    /// reports `Timeout` once the deadline has arrived and `WouldBlock`
    /// while waiting is still allowed.
    pub fn dequeue_deadline(&mut self, now: u64, deadline: u64) -> (r: Result<T, SyncError>)
        ensures
            old(self)@.len() > 0 ==> r == Result::<T, SyncError>::Ok(old(self)@.first())
                && final(self)@ == old(self)@.drop_first(),
            old(self)@.len() == 0 && now >= deadline ==> r == Result::<T, SyncError>::Err(
                SyncError::Timeout,
            ) && final(self)@ == old(self)@,
            old(self)@.len() == 0 && now < deadline ==> r == Result::<T, SyncError>::Err(
                SyncError::WouldBlock,
            ) && final(self)@ == old(self)@,
    {
        match self.queue.pop_front() {
            Some(v) => Ok(v),
            None => {
                if now >= deadline {
                    Err(SyncError::Timeout)
                } else {
                    Err(SyncError::WouldBlock)
                }
            },
        }
    }

    /// Number of elements currently held.
    pub fn len(&self) -> (n: usize)
        ensures
            n == self@.len(),
    {
        self.queue.len()
    }
}

} // verus!
