//! A spinlock: busy-wait mutual exclusion around a single
//! locked/unlocked flag.
//!
//! `lock` specifies the step the winning compare-and-swap performs: it
//! is enabled only while the flag is clear, and sets it. A contending
//! caller simply observes `try_lock() == false` and retries (yielding
//! between attempts); that spin loop lives in the shell around the
//! verified core, since no fairness bound is promised. `unlock` clears
//! the flag; only the holder may call it.

use vstd::prelude::*;

verus! {

/// A mutual-exclusion flag for very short critical sections.
pub struct Spinlock {
    locked: bool,
}

impl Spinlock {
    /// True while some caller holds the lock.
    pub closed spec fn spec_locked(&self) -> bool {
        self.locked
    }

    /// A new, unlocked lock.
    pub fn new() -> (l: Self)
        ensures
            !l.spec_locked(),
    {
        Spinlock { locked: false }
    }

    /// The acquiring step: the compare-and-swap from unlocked to locked.
    /// Enabled only while the lock is free — a caller that cannot
    /// guarantee that uses [`Self::try_lock`] and spins.
    pub fn lock(&mut self)
        requires
            !old(self).spec_locked(),
        ensures
            final(self).spec_locked(),
    {
        self.locked = true;
    }

    /// One acquisition attempt: takes the lock and returns `true` when
    /// it was free, and otherwise returns `false` and changes nothing.
    pub fn try_lock(&mut self) -> (acquired: bool)
        ensures
            acquired <==> !old(self).spec_locked(),
            final(self).spec_locked(),
    {
        if self.locked {
            false
        } else {
            self.locked = true;
            true
        }
    }

    /// Releases the lock. Only the holder calls this.
    pub fn unlock(&mut self)
        requires
            old(self).spec_locked(),
        ensures
            !final(self).spec_locked(),
    {
        self.locked = false;
    }

    /// Whether the lock is currently held (a snapshot; it may change
    /// the moment another caller runs).
    pub fn is_locked(&self) -> (r: bool)
        ensures
            r == self.spec_locked(),
    {
        self.locked
    }
}

} // verus!
