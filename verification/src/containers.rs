//! Sequential containers: a generic stack and a capacity-bounded
//! container.

use vstd::prelude::*;

verus! {

/// A LIFO stack over a growable vector.
pub struct Stack<T> {
    items: Vec<T>,
}

impl<T> View for Stack<T> {
    type V = Seq<T>;

    closed spec fn view(&self) -> Seq<T> {
        self.items@
    }
}

impl<T> Stack<T> {
    /// An empty stack.
    pub fn new() -> (s: Self)
        ensures
            s@ == Seq::<T>::empty(),
    {
        Stack { items: Vec::new() }
    }

    /// Pushes `item` on top.
    pub fn push(&mut self, item: T)
        ensures
            final(self)@ == old(self)@.push(item),
    {
        self.items.push(item);
    }

    /// Removes and returns the top element, or `None` when empty.
    pub fn pop(&mut self) -> (r: Option<T>)
        ensures
            old(self)@.len() > 0 ==> r == Some(old(self)@.last())
                && final(self)@ == old(self)@.drop_last(),
            old(self)@.len() == 0 ==> r is None && final(self)@ == old(self)@,
    {
        self.items.pop()
    }

    /// A reference to the top element, or `None` when empty.
    pub fn peek(&self) -> (r: Option<&T>)
        ensures
            self@.len() > 0 ==> r == Some(&self@.last()),
            self@.len() == 0 ==> r is None,
    {
        if self.items.len() == 0 {
            None
        } else {
            Some(&self.items[self.items.len() - 1])
        }
    }

    /// True when the stack holds nothing.
    pub fn is_empty(&self) -> (r: bool)
        ensures
            r <==> self@.len() == 0,
    {
        self.items.len() == 0
    }

    /// Number of elements on the stack.
    pub fn len(&self) -> (n: usize)
        ensures
            n == self@.len(),
    {
        self.items.len()
    }
}

impl<T: Clone> Stack<T> {
    /// A clone of the top element, or `None` when empty. Nothing is
    /// promised about what the clone holds: `T`'s own `Clone` decides.
    pub fn peek_cloned(&self) -> (r: Option<T>)
        ensures
            r is Some <==> self@.len() > 0,
    {
        if self.items.len() == 0 {
            None
        } else {
            Some(self.items[self.items.len() - 1].clone())
        }
    }

    /// Pushes a clone of the top element, growing the stack by one and
    /// leaving every existing element in place; an empty stack reports
    /// an error and stays empty.
    pub fn duplicate_top(&mut self) -> (r: Result<(), &'static str>)
        ensures
            old(self)@.len() > 0 ==> r is Ok && final(self)@.drop_last() == old(self)@,
            old(self)@.len() == 0 ==> ({
                &&& r matches Err(e)
                &&& e@ == "Stack is empty"@
                &&& final(self)@ == old(self)@
            }),
    {
        match self.peek_cloned() {
            Some(top) => {
                self.push(top);
                proof {
                    assert(final(self)@.drop_last() =~= old(self)@);
                }
                Ok(())
            },
            None => Err("Stack is empty"),
        }
    }
}

/// A container that accepts at most `capacity` items and refuses the
/// rest.
pub struct Container<T> {
    items: Vec<T>,
    capacity: usize,
}

impl<T> View for Container<T> {
    type V = Seq<T>;

    closed spec fn view(&self) -> Seq<T> {
        self.items@
    }
}

impl<T> Container<T> {
    /// The fixed capacity.
    pub closed spec fn spec_capacity(&self) -> usize {
        self.capacity
    }

    /// An empty container with the given capacity.
    pub fn new(capacity: usize) -> (c: Self)
        ensures
            c@ == Seq::<T>::empty(),
            c.spec_capacity() == capacity,
    {
        Container { items: Vec::new(), capacity }
    }

    /// Adds `item` when there is room; a full container reports an
    /// error and keeps its contents unchanged.
    pub fn add(&mut self, item: T) -> (r: Result<(), String>)
        ensures
            final(self).spec_capacity() == old(self).spec_capacity(),
            old(self)@.len() < old(self).spec_capacity() ==> r is Ok && final(self)@ == old(self)@.push(item),
            old(self)@.len() >= old(self).spec_capacity() ==> r is Err && final(self)@ == old(self)@,
    {
        if self.items.len() >= self.capacity {
            Err(String::from_str("Container is full"))
        } else {
            self.items.push(item);
            Ok(())
        }
    }

    /// Removes and returns the most recently added item, or `None` when
    /// empty.
    pub fn remove(&mut self) -> (r: Option<T>)
        ensures
            final(self).spec_capacity() == old(self).spec_capacity(),
            old(self)@.len() > 0 ==> r == Some(old(self)@.last())
                && final(self)@ == old(self)@.drop_last(),
            old(self)@.len() == 0 ==> r is None && final(self)@ == old(self)@,
    {
        self.items.pop()
    }
}

} // verus!
