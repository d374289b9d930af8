//! Shared ownership with weak handles: the payload-as-optional scheme.
//!
//! The control block stores the payload in an occupancy cell and keeps two
//! counts: the strong count of owning handles, and an allocation count that
//! is the number of weak handles *plus one for every strong handle*, since
//! in this scheme every strong handle owns an embedded weak one.  Dropping
//! the last strong handle takes the payload out of its cell and hands it
//! back for destruction while the block lives on; the block itself may be
//! freed only once the allocation count has reached zero, by which time it
//! is provably empty.
//!
//! Handles are values that cannot be forged or duplicated; every operation
//! that mints or retires one goes through the control block and shows up in
//! the counts.  The strong-count events follow the state machine of
//! [`crate::arc`], whose lemmas give the two ownership laws: the payload is
//! destroyed exactly once, and never resurrected.  The full count state of
//! this scheme is a state machine of its own, and
//! [`lemma_block_freed_exactly_once`] extends the same discipline to the
//! block: freed exactly once, by the last handle of any kind, and only
//! after the payload is gone — no interleaving of a final strong drop with
//! concurrent downgrades can double-free or leak.

use core::marker::PhantomData;

use vstd::prelude::*;

use crate::arc::MAX_HANDLES;
use crate::arc::RcOp;
use crate::arc::RcState;
use crate::arc::rc_step;

verus! {

/// The counts of one control block: strong handles, allocation units, and
/// whether the payload is still in its cell.
pub struct BlockState {
    /// The number of strong handles.
    pub strong: nat,
    /// The allocation count: weak handles plus one per strong handle.
    pub alloc: nat,
    /// Whether the payload has not yet been destroyed.
    pub live: bool,
}

/// Every handle event of this scheme.
pub enum BlockOp {
    /// A strong handle is cloned: one more owner, one more embedded weak.
    CloneStrong,
    /// A strong handle is dropped, its embedded weak handle with it.
    DropStrong,
    /// A strong handle mints a weak one.
    Downgrade,
    /// A standalone weak handle is cloned.
    CloneWeak,
    /// A standalone weak handle is dropped.
    DropWeak,
    /// A weak handle is upgraded — the successful case.
    Upgrade,
}

/// The payload lives exactly while owners exist, and every owner is
/// represented in the allocation count.
pub open spec fn block_wf(s: BlockState) -> bool {
    (s.live <==> s.strong >= 1) && s.strong <= s.alloc
}

/// When an event can occur: strong-handle events need a strong handle, and
/// weak-handle events need a standalone weak handle — one beyond those
/// embedded in the owners.
pub open spec fn block_enabled(s: BlockState, op: BlockOp) -> bool {
    match op {
        BlockOp::CloneStrong => s.strong >= 1,
        BlockOp::DropStrong => s.strong >= 1,
        BlockOp::Downgrade => s.strong >= 1,
        BlockOp::CloneWeak => s.alloc > s.strong,
        BlockOp::DropWeak => s.alloc > s.strong,
        BlockOp::Upgrade => s.strong >= 1,
    }
}

/// The effect of a permitted event.
pub open spec fn block_step(s: BlockState, op: BlockOp) -> BlockState {
    match op {
        BlockOp::CloneStrong => BlockState { strong: s.strong + 1, alloc: s.alloc + 1, live: s.live },
        BlockOp::DropStrong => BlockState {
            strong: (s.strong - 1) as nat,
            alloc: (s.alloc - 1) as nat,
            live: s.strong > 1,
        },
        BlockOp::Downgrade => BlockState { alloc: s.alloc + 1, ..s },
        BlockOp::CloneWeak => BlockState { alloc: s.alloc + 1, ..s },
        BlockOp::DropWeak => BlockState { alloc: (s.alloc - 1) as nat, ..s },
        BlockOp::Upgrade => BlockState { strong: s.strong + 1, alloc: s.alloc + 1, live: s.live },
    }
}

/// Whether a whole sequence of events is permitted from `s`.
pub open spec fn block_trace_enabled(s: BlockState, ops: Seq<BlockOp>) -> bool
    decreases ops.len(),
{
    ops.len() == 0 || (block_enabled(s, ops[0]) && block_trace_enabled(
        block_step(s, ops[0]),
        ops.drop_first(),
    ))
}

/// The state after a whole sequence of events.
pub open spec fn block_run(s: BlockState, ops: Seq<BlockOp>) -> BlockState
    decreases ops.len(),
{
    if ops.len() == 0 {
        s
    } else {
        block_run(block_step(s, ops[0]), ops.drop_first())
    }
}

/// How many events of a sequence free the block: the drops that take the
/// allocation count from one to zero.
pub open spec fn block_frees(s: BlockState, ops: Seq<BlockOp>) -> nat
    decreases ops.len(),
{
    if ops.len() == 0 {
        0
    } else {
        (if s.alloc == 1 && (ops[0] is DropStrong || ops[0] is DropWeak) {
            1nat
        } else {
            0nat
        }) + block_frees(block_step(s, ops[0]), ops.drop_first())
    }
}

/// The block invariant is preserved by every permitted event.
pub proof fn lemma_block_wf_preserved(s: BlockState, ops: Seq<BlockOp>)
    requires
        block_wf(s),
        block_trace_enabled(s, ops),
    ensures
        block_wf(block_run(s, ops)),
    decreases ops.len(),
{
    if ops.len() > 0 {
        lemma_block_wf_preserved(block_step(s, ops[0]), ops.drop_first());
    }
}

/// Once every handle is gone — the allocation count at zero — no event is
/// permitted at all, so nothing is ever freed or destroyed again.
pub proof fn lemma_block_gone_stays_gone(s: BlockState, ops: Seq<BlockOp>)
    requires
        s.alloc == 0,
        s.strong == 0,
        block_trace_enabled(s, ops),
    ensures
        block_run(s, ops) == s,
        block_frees(s, ops) == 0,
    decreases ops.len(),
{
    if ops.len() > 0 {
        lemma_block_gone_stays_gone(block_step(s, ops[0]), ops.drop_first());
    }
}

/// The block is freed exactly once, by the last handle of any kind, and
/// only after the payload has been destroyed: however drops, clones,
/// downgrades and upgrades interleave, at most one event takes the
/// allocation count to zero, exactly one does if the handles all retire,
/// and a state without allocation units has no live payload.
pub proof fn lemma_block_freed_exactly_once(s: BlockState, ops: Seq<BlockOp>)
    requires
        block_wf(s),
        block_trace_enabled(s, ops),
    ensures
        block_frees(s, ops) <= 1,
        s.alloc >= 1 ==> (block_frees(s, ops) == 1 <==> block_run(s, ops).alloc == 0),
        block_run(s, ops).alloc == 0 ==> !block_run(s, ops).live,
    decreases ops.len(),
{
    lemma_block_wf_preserved(s, ops);
    if ops.len() > 0 {
        let s1 = block_step(s, ops[0]);
        lemma_block_freed_exactly_once(s1, ops.drop_first());
        if s.alloc == 1 && (ops[0] is DropStrong || ops[0] is DropWeak) {
            lemma_block_gone_stays_gone(s1, ops.drop_first());
        }
    }
}

/// The control block: payload cell, strong count, allocation count.
pub struct ArcData<T> {
    data: Option<T>,
    ref_count: usize,
    alloc_ref_count: usize,
}

/// An owning handle: keeps the payload alive.
pub struct Arc<T> {
    no_forge: PhantomData<T>,
}

/// A non-owning handle: keeps only the block alive, and can attempt to
/// become owning while the payload still lives.
pub struct Weak<T> {
    no_forge: PhantomData<T>,
}

impl<T> ArcData<T> {
    /// The number of strong handles.
    pub closed spec fn strong(self) -> int {
        self.ref_count as int
    }

    /// The allocation count: weak handles, plus one per strong handle.
    pub closed spec fn allocs(self) -> int {
        self.alloc_ref_count as int
    }

    /// The payload, present exactly while the strong count is positive.
    pub closed spec fn payload(self) -> Option<T> {
        self.data
    }

    /// The payload lives exactly while owners exist, and every strong
    /// handle is also counted by the allocation count.
    pub open spec fn wf(self) -> bool {
        (self.payload() is Some <==> self.strong() >= 1) && self.strong() <= self.allocs()
    }

    /// The strong-count state of this block, in the shared protocol's
    /// terms.
    pub open spec fn rc_model(self) -> RcState {
        RcState { strong: self.strong() as nat, live: self.payload() is Some }
    }

    /// The full count state of this block, in this scheme's terms.
    pub open spec fn block_model(self) -> BlockState {
        BlockState {
            strong: self.strong() as nat,
            alloc: self.allocs() as nat,
            live: self.payload() is Some,
        }
    }

    /// Clone a strong handle the caller holds: both counts rise by one.
    /// Near-saturated counts abort rather than wrap, so they stay below the
    /// threshold here.
    pub fn clone_strong(&mut self, handle: &Arc<T>) -> (h: Arc<T>)
        requires
            old(self).wf(),
            old(self).strong() >= 1,
            old(self).strong() < MAX_HANDLES,
            old(self).allocs() < MAX_HANDLES,
        ensures
            final(self).wf(),
            final(self).rc_model() == rc_step(old(self).rc_model(), RcOp::CloneStrong),
            final(self).block_model() == block_step(old(self).block_model(), BlockOp::CloneStrong),
            final(self).allocs() == old(self).allocs() + 1,
            final(self).payload() == old(self).payload(),
    {
        self.alloc_ref_count = self.alloc_ref_count + 1;
        self.ref_count = self.ref_count + 1;
        Arc { no_forge: PhantomData }
    }

    /// Retire a strong handle.  Both counts fall by one; if this was the
    /// last owner, the payload comes out of its cell and is returned for
    /// destruction — the sole point at which it ever leaves.
    pub fn drop_strong(&mut self, handle: Arc<T>) -> (destroyed: Option<T>)
        requires
            old(self).wf(),
            old(self).strong() >= 1,
        ensures
            final(self).wf(),
            final(self).rc_model() == rc_step(old(self).rc_model(), RcOp::DropStrong),
            final(self).block_model() == block_step(old(self).block_model(), BlockOp::DropStrong),
            final(self).allocs() == old(self).allocs() - 1,
            destroyed == (if old(self).strong() == 1 {
                old(self).payload()
            } else {
                None::<T>
            }),
            final(self).payload() == (if old(self).strong() == 1 {
                None::<T>
            } else {
                old(self).payload()
            }),
    {
        self.ref_count = self.ref_count - 1;
        self.alloc_ref_count = self.alloc_ref_count - 1;
        if self.ref_count == 0 {
            self.data.take()
        } else {
            None
        }
    }

    /// Clone a standalone weak handle the caller holds: the allocation
    /// count rises by one, the payload and the owners are untouched.
    pub fn clone_weak(&mut self, handle: &Weak<T>) -> (h: Weak<T>)
        requires
            old(self).wf(),
            old(self).allocs() > old(self).strong(),
            old(self).allocs() < MAX_HANDLES,
        ensures
            final(self).wf(),
            final(self).rc_model() == old(self).rc_model(),
            final(self).block_model() == block_step(old(self).block_model(), BlockOp::CloneWeak),
            final(self).strong() == old(self).strong(),
            final(self).allocs() == old(self).allocs() + 1,
            final(self).payload() == old(self).payload(),
    {
        self.alloc_ref_count = self.alloc_ref_count + 1;
        Weak { no_forge: PhantomData }
    }

    /// Retire a standalone weak handle: the allocation count falls by one.
    /// Once it reaches zero no handle of any kind is left — the payload is
    /// then provably gone, and the block itself may be freed.
    pub fn drop_weak(&mut self, handle: Weak<T>)
        requires
            old(self).wf(),
            old(self).allocs() > old(self).strong(),
        ensures
            final(self).wf(),
            final(self).rc_model() == old(self).rc_model(),
            final(self).block_model() == block_step(old(self).block_model(), BlockOp::DropWeak),
            final(self).strong() == old(self).strong(),
            final(self).allocs() == old(self).allocs() - 1,
            final(self).payload() == old(self).payload(),
            final(self).allocs() == 0 ==> final(self).payload() is None,
    {
        self.alloc_ref_count = self.alloc_ref_count - 1;
    }

    /// Read the payload through a strong handle.
    pub fn get(&self, handle: &Arc<T>) -> (r: &T)
        requires
            self.wf(),
            self.strong() >= 1,
        ensures
            Some(*r) == self.payload(),
    {
        match &self.data {
            Some(v) => v,
            None => unreached(),
        }
    }
}

impl<T> Arc<T> {
    /// Allocate a fresh block owned by one strong handle: strong count one,
    /// allocation count one (the owner's embedded weak handle).
    pub fn new(data: T) -> (r: (ArcData<T>, Arc<T>))
        ensures
            r.0.wf(),
            r.0.strong() == 1,
            r.0.allocs() == 1,
            r.0.payload() == Some(data),
    {
        (
            ArcData { data: Some(data), ref_count: 1, alloc_ref_count: 1 },
            Arc { no_forge: PhantomData },
        )
    }

    /// Whether the caller's strong handle is the only one, so that mutable
    /// access through [`Arc::get_mut`] is safe.
    pub fn is_unique(arc: &Arc<T>, d: &ArcData<T>) -> (r: bool)
        requires
            d.wf(),
            d.strong() >= 1,
        ensures
            r == (d.strong() == 1),
    {
        d.ref_count == 1
    }

    /// Exclusive mutable access to the payload, for the sole strong handle.
    pub fn get_mut<'a>(arc: &Arc<T>, d: &'a mut ArcData<T>) -> (r: &'a mut T)
        requires
            old(d).wf(),
            old(d).strong() == 1,
        ensures
            Some(*r) == old(d).payload(),
            final(d).payload() == Some(*final(r)),
            final(d).strong() == old(d).strong(),
            final(d).allocs() == old(d).allocs(),
            final(d).wf(),
    {
        match &mut d.data {
            Some(v) => v,
            None => unreached(),
        }
    }

    /// Mint a weak handle from a strong one: the allocation count rises by
    /// one, ownership is untouched.
    pub fn downgrade(arc: &Arc<T>, d: &mut ArcData<T>) -> (w: Weak<T>)
        requires
            old(d).wf(),
            old(d).strong() >= 1,
            old(d).allocs() < MAX_HANDLES,
        ensures
            final(d).wf(),
            final(d).rc_model() == old(d).rc_model(),
            final(d).block_model() == block_step(old(d).block_model(), BlockOp::Downgrade),
            final(d).strong() == old(d).strong(),
            final(d).allocs() == old(d).allocs() + 1,
            final(d).payload() == old(d).payload(),
    {
        d.alloc_ref_count = d.alloc_ref_count + 1;
        Weak { no_forge: PhantomData }
    }
}

impl<T> Weak<T> {
    /// Attempt to obtain a strong handle: succeeds exactly while at least
    /// one strong handle still exists, raising both counts (the new owner
    /// brings its own embedded weak handle); after the payload has died
    /// this returns nothing, now and forever.
    pub fn upgrade(&self, d: &mut ArcData<T>) -> (r: Option<Arc<T>>)
        requires
            old(d).wf(),
            old(d).allocs() < MAX_HANDLES,
        ensures
            final(d).wf(),
            r is Some <==> old(d).strong() >= 1,
            r is Some ==> {
                &&& final(d).rc_model() == rc_step(old(d).rc_model(), RcOp::UpgradeWeak)
                &&& final(d).block_model() == block_step(old(d).block_model(), BlockOp::Upgrade)
                &&& final(d).allocs() == old(d).allocs() + 1
                &&& final(d).payload() == old(d).payload()
            },
            r is None ==> *final(d) == *old(d),
    {
        if d.ref_count == 0 {
            None
        } else {
            d.ref_count = d.ref_count + 1;
            d.alloc_ref_count = d.alloc_ref_count + 1;
            Some(Arc { no_forge: PhantomData })
        }
    }
}

} // verus!
