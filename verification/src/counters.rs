//! Mutex-guarded counters: the shared state of the classic
//! counter-behind-a-lock examples.
//!
//! Each method specifies the step one thread performs while holding the
//! lock; the lock itself, which serializes those steps, lives in the
//! shell around the verified core. Unlike [`crate::atomic_counter`],
//! these counters are signed and never wrap: the contracts exclude
//! overflow instead.

use vstd::prelude::*;

verus! {

/// A counter supporting increment, decrement, arbitrary additions, reads
/// and reset, each reporting the resulting (or prior) value.
pub struct ThreadSafeCounter {
    value: i64,
}

impl ThreadSafeCounter {
    /// The current value.
    pub closed spec fn spec_value(&self) -> i64 {
        self.value
    }

    /// A counter starting at zero.
    pub fn new() -> (c: Self)
        ensures
            c.spec_value() == 0,
    {
        ThreadSafeCounter { value: 0 }
    }

    /// Adds one and returns the new value.
    pub fn increment(&mut self) -> (v: i64)
        requires
            old(self).spec_value() < i64::MAX,
        ensures
            final(self).spec_value() == old(self).spec_value() + 1,
            v == final(self).spec_value(),
    {
        self.value = self.value + 1;
        self.value
    }

    /// Subtracts one and returns the new value.
    pub fn decrement(&mut self) -> (v: i64)
        requires
            old(self).spec_value() > i64::MIN,
        ensures
            final(self).spec_value() == old(self).spec_value() - 1,
            v == final(self).spec_value(),
    {
        self.value = self.value - 1;
        self.value
    }

    /// Adds `amount` (which may be negative) and returns the new value.
    pub fn add(&mut self, amount: i64) -> (v: i64)
        requires
            i64::MIN <= old(self).spec_value() + amount <= i64::MAX,
        ensures
            final(self).spec_value() == old(self).spec_value() + amount,
            v == final(self).spec_value(),
    {
        self.value = self.value + amount;
        self.value
    }

    /// Reads the current value.
    pub fn get(&self) -> (v: i64)
        ensures
            v == self.spec_value(),
    {
        self.value
    }

    /// Resets to zero and returns the value from before the reset.
    pub fn reset(&mut self) -> (previous: i64)
        ensures
            previous == old(self).spec_value(),
            final(self).spec_value() == 0,
    {
        let previous = self.value;
        self.value = 0;
        previous
    }
}

/// A counter whose operations return nothing: callers observe it only
/// through `get`.
pub struct ConcurrentCounter {
    value: i32,
}

impl ConcurrentCounter {
    /// The current value.
    pub closed spec fn spec_value(&self) -> i32 {
        self.value
    }

    /// A counter starting at zero.
    pub fn new() -> (c: Self)
        ensures
            c.spec_value() == 0,
    {
        ConcurrentCounter { value: 0 }
    }

    /// Adds one.
    pub fn increment(&mut self)
        requires
            old(self).spec_value() < i32::MAX,
        ensures
            final(self).spec_value() == old(self).spec_value() + 1,
    {
        self.value = self.value + 1;
    }

    /// Subtracts one.
    pub fn decrement(&mut self)
        requires
            old(self).spec_value() > i32::MIN,
        ensures
            final(self).spec_value() == old(self).spec_value() - 1,
    {
        self.value = self.value - 1;
    }

    /// Adds `amount` (which may be negative).
    pub fn add(&mut self, amount: i32)
        requires
            i32::MIN <= old(self).spec_value() + amount <= i32::MAX,
        ensures
            final(self).spec_value() == old(self).spec_value() + amount,
    {
        self.value = self.value + amount;
    }

    /// Reads the current value.
    pub fn get(&self) -> (v: i32)
        ensures
            v == self.spec_value(),
    {
        self.value
    }
}

/// The minimal shared counter: increment and read.
pub struct Counter {
    value: i32,
}

impl Counter {
    /// The current value.
    pub closed spec fn spec_value(&self) -> i32 {
        self.value
    }

    /// A counter starting at zero.
    pub fn new() -> (c: Self)
        ensures
            c.spec_value() == 0,
    {
        Counter { value: 0 }
    }

    /// Adds one.
    pub fn increment(&mut self)
        requires
            old(self).spec_value() < i32::MAX,
        ensures
            final(self).spec_value() == old(self).spec_value() + 1,
    {
        self.value = self.value + 1;
    }

    /// Reads the current value.
    pub fn get(&self) -> (v: i32)
        ensures
            v == self.spec_value(),
    {
        self.value
    }
}

} // verus!
