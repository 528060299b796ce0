//! A capacity-limited FIFO queue: the state of the classic
//! mutex-plus-two-condition-variables monitor.
//!
//! `put` and `take` specify the step a producer or consumer performs once
//! its wait predicate (`len < capacity`, `len > 0`) holds; the monitor
//! shell that blocks until then lives outside the verified core. The
//! non-blocking variants `try_put` and `try_take` are total and report
//! the `WouldBlock` case instead of waiting.

use crate::errors::SyncError;
use std::collections::VecDeque;
use vstd::prelude::*;

verus! {

/// A FIFO buffer that never holds more than `capacity` elements.
pub struct BoundedBlockingQueue<T> {
    buffer: VecDeque<T>,
    capacity: usize,
}

impl<T> View for BoundedBlockingQueue<T> {
    type V = Seq<T>;

    closed spec fn view(&self) -> Seq<T> {
        self.buffer@
    }
}

impl<T> BoundedBlockingQueue<T> {
    /// The fixed capacity the queue was constructed with.
    pub closed spec fn spec_capacity(&self) -> usize {
        self.capacity
    }

    /// The occupancy invariant: `0 <= len <= capacity` at every
    /// observation point. Every operation requires and preserves it.
    pub open spec fn wf(&self) -> bool {
        self@.len() <= self.spec_capacity()
    }

    /// An empty queue with the given fixed capacity.
    pub fn new(capacity: usize) -> (q: Self)
        ensures
            q.wf(),
            q@ == Seq::<T>::empty(),
            q.spec_capacity() == capacity,
    {
        BoundedBlockingQueue { buffer: VecDeque::with_capacity(capacity), capacity }
    }

    /// Number of elements currently held.
    pub fn len(&self) -> (n: usize)
        ensures
            n == self@.len(),
    {
        self.buffer.len()
    }

    /// True when the queue holds no element (a `take` would block).
    pub fn is_empty(&self) -> (r: bool)
        ensures
            r <==> self@.len() == 0,
    {
        self.buffer.len() == 0
    }

    /// True when the queue is at capacity (a `put` would block).
    pub fn is_full(&self) -> (r: bool)
        ensures
            r <==> self@.len() == self.spec_capacity(),
    {
        self.buffer.len() == self.capacity
    }

    /// Appends `item` at the tail. This is the producer's step once
    /// `len < capacity` holds; a caller that cannot guarantee space
    /// uses [`Self::try_put`] instead.
    pub fn put(&mut self, item: T)
        requires
            old(self).wf(),
            old(self)@.len() < old(self).spec_capacity(),
        ensures
            final(self).wf(),
            final(self)@ == old(self)@.push(item),
            final(self).spec_capacity() == old(self).spec_capacity(),
    {
        self.buffer.push_back(item);
    }

    /// Removes and returns the head element. This is the consumer's step
    /// once `len > 0` holds; a caller that cannot guarantee an element
    /// uses [`Self::try_take`] instead.
    pub fn take(&mut self) -> (item: T)
        requires
            old(self).wf(),
            old(self)@.len() > 0,
        ensures
            final(self).wf(),
            item == old(self)@.first(),
            final(self)@ == old(self)@.drop_first(),
            final(self).spec_capacity() == old(self).spec_capacity(),
    {
        let item = self.buffer.pop_front();
        match item {
            Some(v) => v,
            None => unreached(),
        }
    }

    /// Non-blocking `put`: appends when there is room, and otherwise
    /// hands the item back unchanged (the `WouldBlock` case for a call
    /// that carries a value).
    pub fn try_put(&mut self, item: T) -> (r: Result<(), T>)
        requires
            old(self).wf(),
        ensures
            final(self).wf(),
            final(self).spec_capacity() == old(self).spec_capacity(),
            old(self)@.len() < old(self).spec_capacity() ==> r is Ok && final(self)@ == old(self)@.push(item),
            old(self)@.len() == old(self).spec_capacity() ==> r == Result::<(), T>::Err(item)
                && final(self)@ == old(self)@,
    {
        if self.buffer.len() < self.capacity {
            self.buffer.push_back(item);
            Ok(())
        } else {
            Err(item)
        }
    }

    /// Non-blocking `take`: returns the head element when one exists,
    /// and `WouldBlock` on an empty queue, with no state change.
    pub fn try_take(&mut self) -> (r: Result<T, SyncError>)
        requires
            old(self).wf(),
        ensures
            final(self).wf(),
            final(self).spec_capacity() == old(self).spec_capacity(),
            old(self)@.len() > 0 ==> r == Result::<T, SyncError>::Ok(old(self)@.first())
                && final(self)@ == old(self)@.drop_first(),
            old(self)@.len() == 0 ==> r == Result::<T, SyncError>::Err(SyncError::WouldBlock)
                && final(self)@ == old(self)@,
    {
        match self.buffer.pop_front() {
            Some(v) => Ok(v),
            None => Err(SyncError::WouldBlock),
        }
    }

    /// The decision step of a deadline-bounded `put`, taken under the
    /// lock on each attempt: appends when there is room; otherwise
    /// reports `Timeout` once the deadline has arrived and `WouldBlock`
    /// while waiting is still allowed. An error hands the item back —
    /// no element is ever partially added.
    pub fn put_deadline(&mut self, item: T, now: u64, deadline: u64) -> (r: Result<
        (),
        (T, SyncError),
    >)
        requires
            old(self).wf(),
        ensures
            final(self).wf(),
            final(self).spec_capacity() == old(self).spec_capacity(),
            old(self)@.len() < old(self).spec_capacity() ==> r is Ok
                && final(self)@ == old(self)@.push(item),
            old(self)@.len() == old(self).spec_capacity() && now >= deadline ==> r
                == Result::<(), (T, SyncError)>::Err((item, SyncError::Timeout))
                && final(self)@ == old(self)@,
            old(self)@.len() == old(self).spec_capacity() && now < deadline ==> r
                == Result::<(), (T, SyncError)>::Err((item, SyncError::WouldBlock))
                && final(self)@ == old(self)@,
    {
        if self.buffer.len() < self.capacity {
            self.buffer.push_back(item);
            Ok(())
        } else if now >= deadline {
            Err((item, SyncError::Timeout))
        } else {
            Err((item, SyncError::WouldBlock))
        }
    }

    /// The decision step of a deadline-bounded `take`, taken under the
    /// lock on each attempt: removes the head when one exists; otherwise
    /// reports `Timeout` once the deadline has arrived and `WouldBlock`
    /// while waiting is still allowed. No element is ever partially
    /// removed.
    pub fn take_deadline(&mut self, now: u64, deadline: u64) -> (r: Result<T, SyncError>)
        requires
            old(self).wf(),
        ensures
            final(self).wf(),
            final(self).spec_capacity() == old(self).spec_capacity(),
            old(self)@.len() > 0 ==> r == Result::<T, SyncError>::Ok(old(self)@.first())
                && final(self)@ == old(self)@.drop_first(),
            old(self)@.len() == 0 && now >= deadline ==> r == Result::<T, SyncError>::Err(
                SyncError::Timeout,
            ) && final(self)@ == old(self)@,
            old(self)@.len() == 0 && now < deadline ==> r == Result::<T, SyncError>::Err(
                SyncError::WouldBlock,
            ) && final(self)@ == old(self)@,
    {
        match self.buffer.pop_front() {
            Some(v) => Ok(v),
            None => {
                if now >= deadline {
                    Err(SyncError::Timeout)
                } else {
                    Err(SyncError::WouldBlock)
                }
            },
        }
    }
}

/// Law: under the occupancy invariant, the observed length of a bounded
/// queue never exceeds its capacity and never drops below zero. Every
/// operation above requires `wf` and ensures it again, so the bound holds
/// at every instant of any serialized interleaving of `put`/`take` calls.
pub proof fn lemma_occupancy_bounded<T>(q: &BoundedBlockingQueue<T>)
    requires
        q.wf(),
    ensures
        0 <= q@.len() <= q.spec_capacity(),
{
}

/// Law: a `take` delivers exactly one element, exactly once. Removing the
/// head both returns it and deletes one occurrence of it from the queue's
/// contents, so no element can be delivered by two different `take` calls
/// and none is lost: the multiset of contents before equals the multiset
/// after plus the delivered element.
pub proof fn lemma_take_delivers_exactly_once<T>(contents: Seq<T>)
    requires
        contents.len() > 0,
    ensures
        contents.to_multiset() == contents.drop_first().to_multiset().insert(contents.first()),
{
    broadcast use vstd::seq_lib::group_to_multiset_ensures;

    assert(contents.drop_first() =~= contents.remove(0));
    assert(contents.remove(0).to_multiset() =~= contents.to_multiset().remove(contents.first()));
    assert(contents.to_multiset().contains(contents.first()));
    assert(contents.to_multiset().remove(contents.first()).insert(contents.first())
        =~= contents.to_multiset());
}

/// Law: a `put` adds exactly one occurrence of the item to the queue's
/// contents and touches nothing else.
pub proof fn lemma_put_adds_exactly_once<T>(contents: Seq<T>, item: T)
    ensures
        contents.push(item).to_multiset() == contents.to_multiset().insert(item),
{
    broadcast use vstd::seq_lib::group_to_multiset_ensures;

}

} // verus!
