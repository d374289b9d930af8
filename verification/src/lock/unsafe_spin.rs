//! A spin lock that carries its protected value and hands out a guard, but
//! also exposes a bare release for low-level use.
//!
//! Unlike the plain [`crate::lock::spin::SpinLock`], this lock owns a value
//! and access goes through a [`Guard`] that cannot be forged or duplicated.
//! What earns the lock its name is [`UnsafeSpinLock::unlock`]: it releases
//! the flag without asking for the guard back, so a caller that releases
//! early keeps a guard to a lock somebody else may acquire.  The accessors
//! therefore insist that the lock is held when they are used.

use core::marker::PhantomData;

use vstd::prelude::*;

verus! {

/// Busy-wait mutual exclusion around a value of type `T`, with a bare
/// release.
pub struct UnsafeSpinLock<T> {
    locked: bool,
    value: T,
}

/// Evidence that [`UnsafeSpinLock::lock`] was called: the ticket the
/// accessors ask to see.  Guards cannot be duplicated, but the bare release
/// can outdate one.
pub struct Guard<T> {
    no_forge: PhantomData<T>,
}

impl<T> UnsafeSpinLock<T> {
    /// Whether the flag is set.
    pub closed spec fn is_locked(self) -> bool {
        self.locked
    }

    /// The protected value, which never leaves the lock.
    pub closed spec fn contents(self) -> T {
        self.value
    }

    /// A fresh lock is unlocked and holds `value`.
    pub fn new(value: T) -> (s: UnsafeSpinLock<T>)
        ensures
            !s.is_locked(),
            s.contents() == value,
    {
        UnsafeSpinLock { locked: false, value }
    }

    /// Acquire the lock.  Acquiring a lock that is already held spins until
    /// the holder releases it, so here the flag must be clear.
    pub fn lock(&mut self) -> (g: Guard<T>)
        requires
            !old(self).is_locked(),
        ensures
            final(self).is_locked(),
            final(self).contents() == old(self).contents(),
    {
        self.locked = true;
        Guard { no_forge: PhantomData }
    }

    /// Read the value while holding the lock.
    pub fn get(&self, g: &Guard<T>) -> (r: &T)
        requires
            self.is_locked(),
        ensures
            *r == self.contents(),
    {
        &self.value
    }

    /// Replace the value while holding the lock.
    pub fn set(&mut self, g: &Guard<T>, v: T)
        requires
            old(self).is_locked(),
        ensures
            final(self).is_locked(),
            final(self).contents() == v,
    {
        self.value = v;
    }

    /// Release the flag without surrendering a guard.  This is the
    /// low-level escape hatch: any guard still outstanding now names a lock
    /// it no longer holds, and the accessors will refuse it once the flag
    /// is clear.
    pub fn unlock(&mut self)
        ensures
            !final(self).is_locked(),
            final(self).contents() == old(self).contents(),
    {
        self.locked = false;
    }
}

} // verus!
