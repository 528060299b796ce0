//! An atomic-counter abstraction with explicit memory-ordering control.
//!
//! Each operation takes a [`MemoryOrdering`] policy. The ordering
//! selects the strength of the happens-before edges the operation
//! establishes with other threads (a release store synchronizes-with a
//! later acquire load of the same location); it never changes which
//! value the operation reads or writes. The contracts here pin down that
//! value semantics — the effect of the single atomic step — for every
//! ordering alike. Sequentially-consistent is the recommended default;
//! relaxed suits pure statistics counters with no ordering dependency.

use vstd::prelude::*;

verus! {

/// The memory-ordering policies of the standard happens-before model.
#[derive(Clone, Copy, Debug, PartialEq, Eq, Structural)]
pub enum MemoryOrdering {
    Relaxed,
    Acquire,
    Release,
    AcquireRelease,
    SequentiallyConsistent,
}

/// An atomic unsigned counter. Additions wrap around on overflow, as
/// hardware atomics do.
pub struct AtomicCounter {
    value: u64,
}

impl AtomicCounter {
    /// The current value.
    pub closed spec fn spec_value(&self) -> u64 {
        self.value
    }

    /// A counter starting at `initial`.
    pub fn new(initial: u64) -> (c: Self)
        ensures
            c.spec_value() == initial,
    {
        AtomicCounter { value: initial }
    }

    /// Atomically adds `val` (wrapping on overflow) and returns the
    /// value from before the addition.
    pub fn fetch_add(&mut self, val: u64, order: MemoryOrdering) -> (previous: u64)
        ensures
            previous == old(self).spec_value(),
            final(self).spec_value() == vstd::wrapping::u64_specs::wrapping_add(
                old(self).spec_value(),
                val,
            ),
    {
        let previous = self.value;
        self.value = previous.wrapping_add(val);
        previous
    }

    /// Reads the current value.
    pub fn load(&self, order: MemoryOrdering) -> (v: u64)
        ensures
            v == self.spec_value(),
    {
        self.value
    }

    /// Overwrites the value.
    pub fn store(&mut self, val: u64, order: MemoryOrdering)
        ensures
            final(self).spec_value() == val,
    {
        self.value = val;
    }

    /// The compare-and-swap step: replaces the value with `new` only if
    /// it currently equals `current`, returning the previous value as
    /// `Ok` on success and as `Err` (with no change) on failure.
    pub fn compare_exchange(
        &mut self,
        current: u64,
        new: u64,
        success: MemoryOrdering,
        failure: MemoryOrdering,
    ) -> (r: Result<u64, u64>)
        ensures
            old(self).spec_value() == current ==> r == Result::<u64, u64>::Ok(current)
                && final(self).spec_value() == new,
            old(self).spec_value() != current ==> r == Result::<u64, u64>::Err(
                old(self).spec_value(),
            ) && final(self).spec_value() == old(self).spec_value(),
    {
        if self.value == current {
            self.value = new;
            Ok(current)
        } else {
            Err(self.value)
        }
    }
}

} // verus!
