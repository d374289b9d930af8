//! Shared ownership without weak handles: one strong count.
//!
//! The control block holds the payload and a single count of owning
//! handles.  Cloning raises the count, dropping lowers it, and the drop
//! that lowers it to zero takes the payload out for destruction; the empty
//! block is then dropped by whoever holds it.  Handles cannot be forged or
//! duplicated, so every owner is counted.  The strong-count events follow
//! the state machine of [`crate::arc`].

use core::marker::PhantomData;

use vstd::prelude::*;

use crate::arc::MAX_HANDLES;
use crate::arc::RcOp;
use crate::arc::RcState;
use crate::arc::rc_step;

verus! {

/// The control block: payload and strong count.
pub struct ArcData<T> {
    data: Option<T>,
    ref_count: usize,
}

/// An owning handle: keeps the payload alive.
pub struct Arc<T> {
    no_forge: PhantomData<T>,
}

impl<T> ArcData<T> {
    /// The number of strong handles.
    pub closed spec fn strong(self) -> int {
        self.ref_count as int
    }

    /// The payload, present exactly while the strong count is positive.
    pub closed spec fn payload(self) -> Option<T> {
        self.data
    }

    /// The payload lives exactly while owners exist.
    pub open spec fn wf(self) -> bool {
        self.payload() is Some <==> self.strong() >= 1
    }

    /// The strong-count state of this block, in the shared protocol's
    /// terms.
    pub open spec fn rc_model(self) -> RcState {
        RcState { strong: self.strong() as nat, live: self.payload() is Some }
    }

    /// Clone a strong handle the caller holds.  A count near saturation
    /// aborts rather than wrap, so it stays below the threshold here.
    pub fn clone_strong(&mut self, handle: &Arc<T>) -> (h: Arc<T>)
        requires
            old(self).wf(),
            old(self).strong() >= 1,
            old(self).strong() < MAX_HANDLES,
        ensures
            final(self).wf(),
            final(self).rc_model() == rc_step(old(self).rc_model(), RcOp::CloneStrong),
            final(self).payload() == old(self).payload(),
    {
        self.ref_count = self.ref_count + 1;
        Arc { no_forge: PhantomData }
    }

    /// Retire a strong handle.  If it was the last, the payload comes out
    /// for destruction — the sole point at which it ever leaves.
    pub fn drop_strong(&mut self, handle: Arc<T>) -> (destroyed: Option<T>)
        requires
            old(self).wf(),
            old(self).strong() >= 1,
        ensures
            final(self).wf(),
            final(self).rc_model() == rc_step(old(self).rc_model(), RcOp::DropStrong),
            destroyed == (if old(self).strong() == 1 {
                old(self).payload()
            } else {
                None::<T>
            }),
            final(self).payload() == (if old(self).strong() == 1 {
                None::<T>
            } else {
                old(self).payload()
            }),
    {
        self.ref_count = self.ref_count - 1;
        if self.ref_count == 0 {
            self.data.take()
        } else {
            None
        }
    }

    /// Read the payload through a strong handle.
    pub fn get(&self, handle: &Arc<T>) -> (r: &T)
        requires
            self.wf(),
            self.strong() >= 1,
        ensures
            Some(*r) == self.payload(),
    {
        match &self.data {
            Some(v) => v,
            None => unreached(),
        }
    }
}

impl<T> Arc<T> {
    /// Allocate a fresh block owned by one strong handle.
    pub fn new(data: T) -> (r: (ArcData<T>, Arc<T>))
        ensures
            r.0.wf(),
            r.0.strong() == 1,
            r.0.payload() == Some(data),
    {
        (ArcData { data: Some(data), ref_count: 1 }, Arc { no_forge: PhantomData })
    }

    /// Whether the caller's strong handle is the only one, so that mutable
    /// access through [`Arc::get_mut`] is safe.
    pub fn is_unique(arc: &Arc<T>, d: &ArcData<T>) -> (r: bool)
        requires
            d.wf(),
            d.strong() >= 1,
        ensures
            r == (d.strong() == 1),
    {
        d.ref_count == 1
    }

    /// Exclusive mutable access to the payload, for the sole strong handle.
    pub fn get_mut<'a>(arc: &Arc<T>, d: &'a mut ArcData<T>) -> (r: &'a mut T)
        requires
            old(d).wf(),
            old(d).strong() == 1,
        ensures
            Some(*r) == old(d).payload(),
            final(d).payload() == Some(*final(r)),
            final(d).strong() == old(d).strong(),
            final(d).wf(),
    {
        match &mut d.data {
            Some(v) => v,
            None => unreached(),
        }
    }
}

} // verus!
