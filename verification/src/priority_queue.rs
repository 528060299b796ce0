//! A priority queue: the state of a mutex-plus-condition-variable monitor
//! over a max-ordered collection.
//!
//! The contents are a multiset of priorities; `pop` always yields a
//! maximal element. Ties between equal priorities are broken arbitrarily
//! (the contracts promise nothing about which of two equal elements
//! leaves first). `pop_blocking` specifies the step a blocked consumer
//! performs once at least one item exists; the wait loop that absorbs
//! spurious wakeups lives in the monitor shell outside the verified core.

use crate::errors::SyncError;
use vstd::multiset::Multiset;
use vstd::prelude::*;

verus! {

/// True when `s` is sorted in non-increasing order.
spec fn sorted_desc(s: Seq<i64>) -> bool {
    forall|i: int, j: int| 0 <= i <= j < s.len() ==> s[i] >= s[j]
}

/// A max-priority queue of `i64` priorities.
pub struct ThreadSafePriorityQueue {
    items: Vec<i64>,
}

impl View for ThreadSafePriorityQueue {
    type V = Multiset<i64>;

    closed spec fn view(&self) -> Multiset<i64> {
        self.items@.to_multiset()
    }
}

/// Inserting an element anywhere in a sequence inserts exactly one
/// occurrence of it into the sequence's multiset of elements.
proof fn lemma_insert_to_multiset(s: Seq<i64>, i: int, x: i64)
    requires
        0 <= i <= s.len(),
    ensures
        s.insert(i, x).to_multiset() == s.to_multiset().insert(x),
{
    broadcast use vstd::seq_lib::group_to_multiset_ensures;

    let t = s.insert(i, x);
    assert(t.remove(i) =~= s);
    assert(t[i] == x);
    assert(t.to_multiset().contains(x));
    assert(t.remove(i).to_multiset() =~= t.to_multiset().remove(x));
    assert(t.to_multiset().remove(x).insert(x) =~= t.to_multiset());
}

impl ThreadSafePriorityQueue {
    /// The representation invariant: the backing vector is kept sorted
    /// with the largest priority at the front.
    pub closed spec fn wf(&self) -> bool {
        sorted_desc(self.items@)
    }

    /// An empty queue.
    pub fn new() -> (q: Self)
        ensures
            q.wf(),
            q@ == Multiset::<i64>::empty(),
    {
        let q = ThreadSafePriorityQueue { items: Vec::new() };
        proof {
            broadcast use vstd::seq_lib::group_to_multiset_ensures;

            assert(q.items@.to_multiset() =~= Multiset::<i64>::empty());
        }
        q
    }

    /// Inserts `item`, adding exactly one occurrence of it to the
    /// contents.
    pub fn push(&mut self, item: i64)
        requires
            old(self).wf(),
        ensures
            final(self).wf(),
            final(self)@ == old(self)@.insert(item),
    {
        let ghost s0 = self.items@;
        let mut i: usize = 0;
        while i < self.items.len() && self.items[i] >= item
            invariant
                i <= self.items@.len(),
                self.items@ == s0,
                forall|j: int| 0 <= j < i ==> s0[j] >= item,
            decreases self.items@.len() - i,
        {
            i = i + 1;
        }
        self.items.insert(i, item);
        proof {
            lemma_insert_to_multiset(s0, i as int, item);
            let s1 = self.items@;
            assert forall|p: int, q: int| 0 <= p <= q < s1.len() implies s1[p] >= s1[q] by {
                assert(forall|k: int| 0 <= k < i ==> s1[k] == s0[k]);
                assert(s1[i as int] == item);
                assert(forall|k: int| i < k < s1.len() ==> s1[k] == s0[k - 1]);
            }
        }
    }

    /// Non-blocking pop: removes and returns a maximal element, or
    /// `None` on an empty queue, with no state change.
    pub fn pop(&mut self) -> (r: Option<i64>)
        requires
            old(self).wf(),
        ensures
            final(self).wf(),
            old(self)@.len() == 0 ==> r is None && final(self)@ == old(self)@,
            old(self)@.len() > 0 ==> {
                &&& r matches Some(m)
                &&& old(self)@.count(m) > 0
                &&& final(self)@ == old(self)@.remove(m)
                &&& forall|x: i64| old(self)@.count(x) > 0 ==> x <= m
            },
    {
        proof {
            broadcast use vstd::seq_lib::group_to_multiset_ensures;

        }
        if self.items.len() == 0 {
            None
        } else {
            let ghost s0 = self.items@;
            let m = self.items.remove(0);
            proof {
                assert(s0.remove(0).to_multiset() =~= s0.to_multiset().remove(s0[0]));
                assert forall|x: i64| s0.to_multiset().count(x) > 0 implies x <= m by {
                    assert(s0.contains(x));
                    let j = choose|j: int| 0 <= j < s0.len() && s0[j] == x;
                    assert(s0[0] >= s0[j]);
                }
            }
            Some(m)
        }
    }

    /// The step a blocking pop performs once at least one item exists:
    /// removes and returns a maximal element.
    pub fn pop_blocking(&mut self) -> (m: i64)
        requires
            old(self).wf(),
            old(self)@.len() > 0,
        ensures
            final(self).wf(),
            old(self)@.count(m) > 0,
            final(self)@ == old(self)@.remove(m),
            forall|x: i64| old(self)@.count(x) > 0 ==> x <= m,
    {
        match self.pop() {
            Some(m) => m,
            None => unreached(),
        }
    }

    /// The decision step of a deadline-bounded pop, taken under the
    /// lock on each attempt: removes a maximal element when one exists;
    /// otherwise reports `Timeout` once the deadline has arrived and
    /// `WouldBlock` while waiting is still allowed.
    pub fn pop_deadline(&mut self, now: u64, deadline: u64) -> (r: Result<i64, SyncError>)
        requires
            old(self).wf(),
        ensures
            final(self).wf(),
            old(self)@.len() > 0 ==> ({
                &&& r matches Ok(m)
                &&& old(self)@.count(m) > 0
                &&& final(self)@ == old(self)@.remove(m)
                &&& forall|x: i64| old(self)@.count(x) > 0 ==> x <= m
            }),
            old(self)@.len() == 0 && now >= deadline ==> r == Result::<i64, SyncError>::Err(
                SyncError::Timeout,
            ) && final(self)@ == old(self)@,
            old(self)@.len() == 0 && now < deadline ==> r == Result::<i64, SyncError>::Err(
                SyncError::WouldBlock,
            ) && final(self)@ == old(self)@,
    {
        match self.pop() {
            Some(m) => Ok(m),
            None => {
                if now >= deadline {
                    Err(SyncError::Timeout)
                } else {
                    Err(SyncError::WouldBlock)
                }
            },
        }
    }

    /// Number of items currently held (counting multiplicity).
    pub fn len(&self) -> (n: usize)
        ensures
            n == self@.len(),
    {
        proof {
            broadcast use vstd::seq_lib::group_to_multiset_ensures;

        }
        self.items.len()
    }
}

} // verus!
