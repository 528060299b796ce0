//! A linked-node last-in-first-out stack with the contract of a
//! lock-free compare-and-swap stack.
//!
//! Exactly as in the CAS version, each element lives in a node holding
//! the value and the index of the next node down, and the stack is a
//! head that names the top node. `push` links a fresh node in front of
//! the current head; `pop` swings the head to the successor and
//! transfers the value's ownership to exactly one caller. The contracts
//! specify each operation as one serialized step — the linearization
//! point that a CAS retry loop realizes under contention.
//!
//! The nodes live in one owned arena and are named by stable indices
//! rather than raw pointers, and a popped node's slot is retired, never
//! handed out again: reclamation is deferred until the whole stack is
//! dropped. A stale index can therefore never reach a reused node — the
//! use-after-free/ABA hazard of eagerly freed pointer chains does not
//! arise.

use vstd::prelude::*;

verus! {

/// The index that marks the end of the chain, playing the role of the
/// null pointer. Arena indices are always below the arena's length, so
/// no node is ever named by it.
pub const NIL: usize = usize::MAX;

/// One heap node: the value and the index of the next node down the
/// stack. A retired node keeps no value.
struct Node<T> {
    value: Option<T>,
    next: usize,
}

/// A LIFO stack of linked nodes. The view lists the contents from the
/// bottom up: the head of the stack is the last element of the view.
pub struct LockFreeStack<T> {
    nodes: Vec<Node<T>>,
    head: usize,
    count: usize,
    chain: Ghost<Seq<usize>>,
}

impl<T> View for LockFreeStack<T> {
    type V = Seq<T>;

    closed spec fn view(&self) -> Seq<T> {
        Seq::new(
            self.chain@.len(),
            |i: int| self.nodes@[self.chain@[self.chain@.len() - 1 - i] as int].value.unwrap(),
        )
    }
}

impl<T> LockFreeStack<T> {
    /// The representation invariant: the ghost chain lists the live
    /// node indices from the head down. Indices are in bounds and
    /// pairwise distinct, each node's `next` names its successor (the
    /// last one carries [`NIL`]), every live node holds a value, and
    /// the head and the element count agree with the chain.
    pub closed spec fn wf(&self) -> bool {
        let chain = self.chain@;
        &&& forall|k: int| 0 <= k < chain.len() ==> (#[trigger] chain[k]) < self.nodes@.len()
        &&& forall|k1: int, k2: int|
            0 <= k1 < k2 < chain.len() ==> #[trigger] chain[k1] != #[trigger] chain[k2]
        &&& self.head == if chain.len() == 0 {
            NIL
        } else {
            chain[0]
        }
        &&& forall|k: int|
            0 <= k < chain.len() ==> (#[trigger] self.nodes@[chain[k] as int].value) is Some
        &&& forall|k: int|
            0 <= k < chain.len() - 1 ==> (#[trigger] self.nodes@[chain[k] as int].next) == chain[
                k + 1
            ]
        &&& chain.len() > 0 ==> self.nodes@[chain[chain.len() - 1] as int].next == NIL
        &&& self.count == chain.len()
        &&& chain.len() <= self.nodes@.len()
    }

    /// An empty stack.
    pub fn new() -> (s: Self)
        ensures
            s.wf(),
            s@ == Seq::<T>::empty(),
    {
        let s = LockFreeStack {
            nodes: Vec::new(),
            head: NIL,
            count: 0,
            chain: Ghost(Seq::empty()),
        };
        proof {
            assert(s@ =~= Seq::<T>::empty());
        }
        s
    }

    /// Pushes `data` onto the head of the stack: allocates a node whose
    /// `next` is the current head and makes it the new head.
    pub fn push(&mut self, data: T)
        requires
            old(self).wf(),
        ensures
            final(self).wf(),
            final(self)@ == old(self)@.push(data),
    {
        let n = self.nodes.len();
        self.nodes.push(Node { value: Some(data), next: self.head });
        proof {
            vstd::std_specs::vec::axiom_spec_len(&self.nodes);
        }
        self.head = n;
        self.count = self.count + 1;
        proof {
            let old_chain = old(self).chain@;
            self.chain = Ghost(seq![n] + old_chain);
            let chain = self.chain@;
            assert(forall|k: int|
                1 <= k < chain.len() ==> chain[k] == old_chain[k - 1] && chain[k] < n);
            assert(forall|k: int|
                0 <= k < old_chain.len() ==> self.nodes@[old_chain[k] as int]
                    == old(self).nodes@[old_chain[k] as int]);
            assert(self@ =~= old(self)@.push(data));
        }
    }

    /// Pops the head of the stack: the most recently pushed element
    /// still present, or `None` when the stack is empty. The head moves
    /// to the successor node and the popped node's slot is retired.
    pub fn pop(&mut self) -> (r: Option<T>)
        requires
            old(self).wf(),
        ensures
            final(self).wf(),
            old(self)@.len() > 0 ==> r == Some(old(self)@.last())
                && final(self)@ == old(self)@.drop_last(),
            old(self)@.len() == 0 ==> r is None && final(self)@ == old(self)@,
    {
        if self.head == NIL {
            proof {
                vstd::std_specs::vec::axiom_spec_len(&self.nodes);
                assert(self@ =~= old(self)@);
            }
            return None;
        }
        let h = self.head;
        let next = self.nodes[h].next;
        let mut taken = Node { value: None, next: NIL };
        core::mem::swap(&mut self.nodes[h], &mut taken);
        self.head = next;
        self.count = self.count - 1;
        proof {
            let old_chain = old(self).chain@;
            self.chain = Ghost(old_chain.drop_first());
            let chain = self.chain@;
            assert(forall|k: int| 0 <= k < chain.len() ==> chain[k] == old_chain[k + 1]);
            assert(forall|k: int|
                0 <= k < chain.len() ==> chain[k] != h && self.nodes@[chain[k] as int]
                    == old(self).nodes@[chain[k] as int]);
            assert(final(self)@ =~= old(self)@.drop_last());
        }
        match taken.value {
            Some(v) => Some(v),
            None => unreached(),
        }
    }

    /// Number of elements currently on the stack.
    pub fn len(&self) -> (n: usize)
        requires
            self.wf(),
        ensures
            n == self@.len(),
    {
        self.count
    }
}

/// Law: a `pop` delivers exactly one element, exactly once. Removing the
/// head both returns it and deletes one occurrence of it from the stack's
/// contents, so no value can be returned by two different `pop` calls and
/// none is lost: the multiset of contents before equals the multiset
/// after plus the delivered value.
pub proof fn lemma_pop_delivers_exactly_once<T>(contents: Seq<T>)
    requires
        contents.len() > 0,
    ensures
        contents.to_multiset() == contents.drop_last().to_multiset().insert(contents.last()),
{
    broadcast use vstd::seq_lib::group_to_multiset_ensures;

    assert(contents.drop_last().push(contents.last()) =~= contents);
}

/// Law: a `push` adds exactly one occurrence of the value and touches
/// nothing else.
pub proof fn lemma_push_adds_exactly_once<T>(contents: Seq<T>, data: T)
    ensures
        contents.push(data).to_multiset() == contents.to_multiset().insert(data),
{
    broadcast use vstd::seq_lib::group_to_multiset_ensures;

}

/// Law: exactly-once delivery over a whole run. A sequence of pushes
/// followed by pops that drain the stack returns the pushed values in
/// reverse order, and the reversal carries the same multiset: every
/// pushed value is returned exactly once, and no value twice.
pub proof fn lemma_drain_is_permutation<T>(pushed: Seq<T>)
    ensures
        pushed.reverse().to_multiset() == pushed.to_multiset(),
{
    pushed.lemma_reverse_to_multiset();
}

} // verus!
