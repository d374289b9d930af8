//! A conventional blocking channel: a queue behind a mutex, with a
//! condition variable for waiting receivers.
//!
//! `send` pushes under the lock and notifies one waiter; `receive` pops the
//! oldest item under the lock, and in the real channel waits on the
//! condition variable while the queue is empty.  With a single caller a
//! receive on an empty queue would wait for a sender that cannot run, so
//! here it demands a non-empty queue; the wait-side decisions belong to the
//! condition variable's own protocol.

use vstd::prelude::*;

use crate::lock::condvar::Condvar;
use crate::lock::mutex::Mutex;

verus! {

/// A multi-item channel: a growable queue guarded by a mutex, and a
/// condition variable that wakes waiting receivers.
pub struct Channel<T> {
    queue: Mutex<Vec<T>>,
    ready: Condvar,
}

impl<T> Channel<T> {
    /// The queued items, oldest first.
    pub closed spec fn items(self) -> Seq<T> {
        match self.queue.contents() {
            Some(v) => v@,
            None => Seq::empty(),
        }
    }

    /// The queue's mutex is intact and at rest between operations.
    pub closed spec fn wf(self) -> bool {
        self.queue.wf() && !self.queue.is_locked()
    }

    /// A fresh channel holds nothing.
    pub fn new() -> (c: Channel<T>)
        ensures
            c.wf(),
            c.items() == Seq::<T>::empty(),
    {
        Channel { queue: Mutex::new(Vec::new()), ready: Condvar::new() }
    }

    /// Queue `val` behind everything already sent, and notify one waiting
    /// receiver.
    pub fn send(&mut self, val: T)
        requires
            old(self).wf(),
        ensures
            final(self).wf(),
            final(self).items() == old(self).items().push(val),
    {
        let mut g = self.queue.lock();
        g.value_mut().push(val);
        let _wake = self.queue.unlock(g);
        let _signaled = self.ready.notify_one();
    }

    /// Take the oldest item.  The real receive waits on the condition
    /// variable while the queue is empty; a single caller would wait
    /// forever, so the queue must be non-empty here.
    pub fn receive(&mut self) -> (r: T)
        requires
            old(self).wf(),
            old(self).items().len() > 0,
        ensures
            final(self).wf(),
            r == old(self).items()[0],
            final(self).items() == old(self).items().drop_first(),
    {
        let mut g = self.queue.lock();
        let v = g.value_mut().remove(0);
        let _wake = self.queue.unlock(g);
        v
    }
}

} // verus!
