//! A work-stealing double-ended queue, mutex-protected as a correct
//! baseline (not lock-free).
//!
//! The owning thread pushes and pops at the back (LIFO, so it keeps
//! consuming its freshest work), while any other thread steals from the
//! front (FIFO), taking the oldest items and staying out of the owner's
//! way. The contracts pin down which end each operation touches.

use std::collections::VecDeque;
use vstd::prelude::*;

verus! {

/// A double-ended buffer of pending work items.
pub struct WorkStealingQueue<T> {
    local_queue: VecDeque<T>,
}

impl<T> View for WorkStealingQueue<T> {
    type V = Seq<T>;

    closed spec fn view(&self) -> Seq<T> {
        self.local_queue@
    }
}

impl<T> WorkStealingQueue<T> {
    /// An empty queue.
    pub fn new() -> (q: Self)
        ensures
            q@ == Seq::<T>::empty(),
    {
        WorkStealingQueue { local_queue: VecDeque::new() }
    }

    /// Owner's push: appends at the back.
    pub fn push_local(&mut self, item: T)
        ensures
            final(self)@ == old(self)@.push(item),
    {
        self.local_queue.push_back(item);
    }

    /// Owner's pop: removes from the back — the most recently pushed
    /// item — or `None` when the queue is empty.
    pub fn pop_local(&mut self) -> (r: Option<T>)
        ensures
            old(self)@.len() > 0 ==> r == Some(old(self)@.last())
                && final(self)@ == old(self)@.drop_last(),
            old(self)@.len() == 0 ==> r is None && final(self)@ == old(self)@,
    {
        self.local_queue.pop_back()
    }

    /// A thief's steal: removes from the front — the oldest item — or
    /// `None` when the queue is empty.
    pub fn steal(&mut self) -> (r: Option<T>)
        ensures
            old(self)@.len() > 0 ==> r == Some(old(self)@.first())
                && final(self)@ == old(self)@.drop_first(),
            old(self)@.len() == 0 ==> r is None && final(self)@ == old(self)@,
    {
        self.local_queue.pop_front()
    }

    /// Number of pending items.
    pub fn len(&self) -> (n: usize)
        ensures
            n == self@.len(),
    {
        self.local_queue.len()
    }
}

} // verus!
