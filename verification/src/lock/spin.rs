//! A busy-wait lock on a single boolean flag.
//!
//! The real lock keeps the flag in an atomic and acquires it with an
//! acquire/release exchange, spinning while the exchange returns `true`.
//! Here the flag is an explicit boolean and `lock` records the one decision
//! that the spin loop ever takes: the exchange hands the lock over exactly
//! when the flag was clear.  Acquiring a lock that is already held spins
//! until the holder releases it; with a single caller that never happens, so
//! `lock` demands a clear flag outright.

use vstd::prelude::*;

verus! {

/// Busy-wait mutual exclusion on a single flag.
pub struct SpinLock {
    locked: bool,
}

impl SpinLock {
    /// Whether the lock is currently held.
    pub closed spec fn is_locked(&self) -> bool {
        self.locked
    }

    /// A fresh lock is unlocked.
    pub fn new() -> (s: SpinLock)
        ensures
            !s.is_locked(),
    {
        SpinLock { locked: false }
    }

    /// Acquire the lock.  Taking a lock that is already held would spin
    /// forever, so the flag must be clear.
    pub fn lock(&mut self)
        requires
            !old(self).is_locked(),
        ensures
            final(self).is_locked(),
    {
        self.locked = true;
    }

    /// Release the lock unconditionally.  The caller is trusted to hold it;
    /// releasing a lock somebody else spins on is exactly what the real flag
    /// store does, too.
    pub fn unlock(&mut self)
        ensures
            !final(self).is_locked(),
    {
        self.locked = false;
    }
}

} // verus!
