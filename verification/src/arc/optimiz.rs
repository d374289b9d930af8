//! Shared ownership with weak handles: the single allocation-count scheme.
//!
//! The control block keeps the strong count of owning handles and one
//! *allocation count* equal to the number of weak handles, plus one while
//! any strong handle exists at all — the owners collectively hold a single
//! implicit weak handle.  Cloning a strong handle therefore touches only
//! the strong count; the drop of the last strong handle destroys the
//! payload and retires the implicit weak handle in the same breath.
//!
//! The subtlety of this scheme is exclusive access.  To prove itself alone,
//! a strong handle must see the strong count at one *and* know that no weak
//! handle exists or is being minted meanwhile.  The real code claims the
//! allocation count by swapping it from one to a sentinel; a concurrent
//! downgrade spins while the sentinel is in place, so no weak handle can
//! appear between the two checks.  [`claim_allocs`] is that swap, and
//! [`Arc::is_unique`] performs the full claim–check–restore dance; between
//! operations the sentinel never rests in the count.
//!
//! The strong-count events follow the state machine of [`crate::arc`],
//! whose lemmas give the ownership laws: the payload is destroyed exactly
//! once, and never resurrected.  The full count state of this scheme is a
//! state machine of its own, and [`lemma_block_freed_exactly_once`]
//! extends the same discipline to the block: freed exactly once, by the
//! last handle of any kind, and only after the payload is gone — no
//! interleaving of a final strong drop with concurrent downgrades can
//! double-free or leak.

use core::marker::PhantomData;

use vstd::prelude::*;

use crate::arc::MAX_HANDLES;
use crate::arc::RcOp;
use crate::arc::RcState;
use crate::arc::rc_step;

verus! {

/// The transient allocation-count value meaning "a strong handle is
/// checking whether it is alone; mint no weak handle until it is done".
pub const CLAIMED: usize = usize::MAX;

/// One swap of the allocation count from one to the sentinel: the claim
/// succeeds exactly when the count was one — no weak handle besides the
/// implicit one.
pub fn claim_allocs(a: usize) -> (r: (usize, bool))
    ensures
        r.1 == (a == 1),
        r.0 == if a == 1 { CLAIMED as int } else { a as int },
{
    if a == 1 {
        (CLAIMED, true)
    } else {
        (a, false)
    }
}

/// Whether a downgrade must spin before retrying: only while the sentinel
/// holds the allocation count.
pub fn downgrade_should_spin(a: usize) -> (b: bool)
    ensures
        b == (a == CLAIMED),
{
    a == CLAIMED
}

/// The number of allocation-count units the strong handles hold together:
/// one while any of them exists.
pub open spec fn implicit_weak(strong: int) -> int {
    if strong >= 1 {
        1
    } else {
        0
    }
}

/// The counts of one control block: strong handles, allocation units, and
/// whether the payload is still in its cell.
pub struct BlockState {
    /// The number of strong handles.
    pub strong: nat,
    /// The allocation count: standalone weak handles, plus the implicit one
    /// of the owners.
    pub alloc: nat,
    /// Whether the payload has not yet been destroyed.
    pub live: bool,
}

/// Every handle event of this scheme.
pub enum BlockOp {
    /// A strong handle is cloned; the owners still share one implicit weak.
    DuplicateStrong,
    /// A strong handle is dropped; the last one retires the implicit weak
    /// handle with itself.
    RetireStrong,
    /// A strong handle mints a weak one.
    Downgrade,
    /// A standalone weak handle is cloned.
    DuplicateWeak,
    /// A standalone weak handle is dropped.
    RetireWeak,
    /// A weak handle is upgraded — the successful case.
    Upgrade,
}

/// The payload lives exactly while owners exist, and the owners' implicit
/// weak handle is represented in the allocation count.
pub open spec fn block_wf(s: BlockState) -> bool {
    (s.live <==> s.strong >= 1) && s.alloc >= implicit_weak(s.strong as int)
}

/// When an event can occur: strong-handle events need a strong handle, and
/// weak-handle events need a standalone weak handle — one beyond the
/// implicit one.
pub open spec fn block_enabled(s: BlockState, op: BlockOp) -> bool {
    match op {
        BlockOp::DuplicateStrong => s.strong >= 1,
        BlockOp::RetireStrong => s.strong >= 1,
        BlockOp::Downgrade => s.strong >= 1,
        BlockOp::DuplicateWeak => s.alloc > implicit_weak(s.strong as int),
        BlockOp::RetireWeak => s.alloc > implicit_weak(s.strong as int),
        BlockOp::Upgrade => s.strong >= 1,
    }
}

/// The effect of a permitted event.
pub open spec fn block_step(s: BlockState, op: BlockOp) -> BlockState {
    match op {
        BlockOp::DuplicateStrong => BlockState { strong: s.strong + 1, ..s },
        BlockOp::RetireStrong => BlockState {
            strong: (s.strong - 1) as nat,
            alloc: if s.strong == 1 {
                (s.alloc - 1) as nat
            } else {
                s.alloc
            },
            live: s.strong > 1,
        },
        BlockOp::Downgrade => BlockState { alloc: s.alloc + 1, ..s },
        BlockOp::DuplicateWeak => BlockState { alloc: s.alloc + 1, ..s },
        BlockOp::RetireWeak => BlockState { alloc: (s.alloc - 1) as nat, ..s },
        BlockOp::Upgrade => BlockState { strong: s.strong + 1, ..s },
    }
}

/// Whether a whole sequence of events is permitted from `s`.
pub open spec fn block_trace_enabled(s: BlockState, ops: Seq<BlockOp>) -> bool
    decreases ops.len(),
{
    ops.len() == 0 || (block_enabled(s, ops[0]) && block_trace_enabled(
        block_step(s, ops[0]),
        ops.drop_first(),
    ))
}

/// The state after a whole sequence of events.
pub open spec fn block_run(s: BlockState, ops: Seq<BlockOp>) -> BlockState
    decreases ops.len(),
{
    if ops.len() == 0 {
        s
    } else {
        block_run(block_step(s, ops[0]), ops.drop_first())
    }
}

/// How many events of a sequence free the block: the drops that take the
/// allocation count from one to zero.
pub open spec fn block_frees(s: BlockState, ops: Seq<BlockOp>) -> nat
    decreases ops.len(),
{
    if ops.len() == 0 {
        0
    } else {
        (if s.alloc == 1 && ((ops[0] is RetireStrong && s.strong == 1) || ops[0] is RetireWeak) {
            1nat
        } else {
            0nat
        }) + block_frees(block_step(s, ops[0]), ops.drop_first())
    }
}

/// The block invariant is preserved by every permitted event.
pub proof fn lemma_block_wf_preserved(s: BlockState, ops: Seq<BlockOp>)
    requires
        block_wf(s),
        block_trace_enabled(s, ops),
    ensures
        block_wf(block_run(s, ops)),
    decreases ops.len(),
{
    if ops.len() > 0 {
        lemma_block_wf_preserved(block_step(s, ops[0]), ops.drop_first());
    }
}

/// Once every handle is gone — the allocation count at zero — no event is
/// permitted at all, so nothing is ever freed or destroyed again.
pub proof fn lemma_block_gone_stays_gone(s: BlockState, ops: Seq<BlockOp>)
    requires
        s.alloc == 0,
        s.strong == 0,
        block_trace_enabled(s, ops),
    ensures
        block_run(s, ops) == s,
        block_frees(s, ops) == 0,
    decreases ops.len(),
{
    if ops.len() > 0 {
        lemma_block_gone_stays_gone(block_step(s, ops[0]), ops.drop_first());
    }
}

/// The block is freed exactly once, by the last handle of any kind, and
/// only after the payload has been destroyed: however retirements, clones,
/// downgrades and upgrades interleave, at most one event takes the
/// allocation count to zero, exactly one does if the handles all retire,
/// and a state without allocation units has no live payload.
pub proof fn lemma_block_freed_exactly_once(s: BlockState, ops: Seq<BlockOp>)
    requires
        block_wf(s),
        block_trace_enabled(s, ops),
    ensures
        block_frees(s, ops) <= 1,
        s.alloc >= 1 ==> (block_frees(s, ops) == 1 <==> block_run(s, ops).alloc == 0),
        block_run(s, ops).alloc == 0 ==> !block_run(s, ops).live,
    decreases ops.len(),
{
    lemma_block_wf_preserved(s, ops);
    if ops.len() > 0 {
        let s1 = block_step(s, ops[0]);
        lemma_block_freed_exactly_once(s1, ops.drop_first());
        if s.alloc == 1 && ((ops[0] is RetireStrong && s.strong == 1) || ops[0] is RetireWeak) {
            lemma_block_gone_stays_gone(s1, ops.drop_first());
        }
    }
}

/// The control block: payload cell, strong count, allocation count.
pub struct ArcData<T> {
    data: Option<T>,
    ref_count: usize,
    alloc_ref_count: usize,
}

/// An owning handle: keeps the payload alive.
pub struct Arc<T> {
    no_forge: PhantomData<T>,
}

/// A non-owning handle: keeps only the block alive, and can attempt to
/// become owning while the payload still lives.
pub struct Weak<T> {
    no_forge: PhantomData<T>,
}

impl<T> ArcData<T> {
    /// The number of strong handles.
    pub closed spec fn strong(self) -> int {
        self.ref_count as int
    }

    /// The allocation count: standalone weak handles, plus the implicit one
    /// of the owners.
    pub closed spec fn allocs(self) -> int {
        self.alloc_ref_count as int
    }

    /// The payload, present exactly while the strong count is positive.
    pub closed spec fn payload(self) -> Option<T> {
        self.data
    }

    /// The payload lives exactly while owners exist; owners are represented
    /// in the allocation count; and between operations the sentinel never
    /// rests in the count.
    pub open spec fn wf(self) -> bool {
        &&& self.payload() is Some <==> self.strong() >= 1
        &&& self.allocs() >= implicit_weak(self.strong())
        &&& self.allocs() < CLAIMED
    }

    /// The strong-count state of this block, in the shared protocol's
    /// terms.
    pub open spec fn rc_model(self) -> RcState {
        RcState { strong: self.strong() as nat, live: self.payload() is Some }
    }

    /// The full count state of this block, in this scheme's terms.
    pub open spec fn block_model(self) -> BlockState {
        BlockState {
            strong: self.strong() as nat,
            alloc: self.allocs() as nat,
            live: self.payload() is Some,
        }
    }

    /// Clone a strong handle the caller holds: only the strong count rises;
    /// the new owner shares the implicit weak handle.  A count near
    /// saturation aborts rather than wrap, so it stays below the threshold
    /// here.
    pub fn clone_strong(&mut self, handle: &Arc<T>) -> (h: Arc<T>)
        requires
            old(self).wf(),
            old(self).strong() >= 1,
            old(self).strong() < MAX_HANDLES,
        ensures
            final(self).wf(),
            final(self).rc_model() == rc_step(old(self).rc_model(), RcOp::CloneStrong),
            final(self).block_model() == block_step(old(self).block_model(), BlockOp::DuplicateStrong),
            final(self).allocs() == old(self).allocs(),
            final(self).payload() == old(self).payload(),
    {
        self.ref_count = self.ref_count + 1;
        Arc { no_forge: PhantomData }
    }

    /// Retire a strong handle.  The last owner destroys the payload and
    /// retires the implicit weak handle with it, so the allocation count
    /// falls exactly then.
    pub fn drop_strong(&mut self, handle: Arc<T>) -> (destroyed: Option<T>)
        requires
            old(self).wf(),
            old(self).strong() >= 1,
        ensures
            final(self).wf(),
            final(self).rc_model() == rc_step(old(self).rc_model(), RcOp::DropStrong),
            final(self).block_model() == block_step(old(self).block_model(), BlockOp::RetireStrong),
            final(self).allocs() == (if old(self).strong() == 1 {
                old(self).allocs() - 1
            } else {
                old(self).allocs()
            }),
            destroyed == (if old(self).strong() == 1 {
                old(self).payload()
            } else {
                None::<T>
            }),
            final(self).payload() == (if old(self).strong() == 1 {
                None::<T>
            } else {
                old(self).payload()
            }),
    {
        self.ref_count = self.ref_count - 1;
        if self.ref_count == 0 {
            self.alloc_ref_count = self.alloc_ref_count - 1;
            self.data.take()
        } else {
            None
        }
    }

    /// Clone a standalone weak handle the caller holds: the allocation
    /// count rises by one.  A count near saturation aborts rather than
    /// wrap, so it stays below the threshold here.
    pub fn clone_weak(&mut self, handle: &Weak<T>) -> (h: Weak<T>)
        requires
            old(self).wf(),
            old(self).allocs() > implicit_weak(old(self).strong()),
            old(self).allocs() < MAX_HANDLES,
        ensures
            final(self).wf(),
            final(self).rc_model() == old(self).rc_model(),
            final(self).block_model() == block_step(old(self).block_model(), BlockOp::DuplicateWeak),
            final(self).strong() == old(self).strong(),
            final(self).allocs() == old(self).allocs() + 1,
            final(self).payload() == old(self).payload(),
    {
        self.alloc_ref_count = self.alloc_ref_count + 1;
        Weak { no_forge: PhantomData }
    }

    /// Retire a standalone weak handle: the allocation count falls by one.
    /// Once it reaches zero no handle of any kind is left — the payload is
    /// then provably gone, and the block itself may be freed.
    pub fn drop_weak(&mut self, handle: Weak<T>)
        requires
            old(self).wf(),
            old(self).allocs() > implicit_weak(old(self).strong()),
        ensures
            final(self).wf(),
            final(self).rc_model() == old(self).rc_model(),
            final(self).block_model() == block_step(old(self).block_model(), BlockOp::RetireWeak),
            final(self).strong() == old(self).strong(),
            final(self).allocs() == old(self).allocs() - 1,
            final(self).payload() == old(self).payload(),
            final(self).allocs() == 0 ==> final(self).payload() is None,
    {
        self.alloc_ref_count = self.alloc_ref_count - 1;
    }

    /// Read the payload through a strong handle.
    pub fn get(&self, handle: &Arc<T>) -> (r: &T)
        requires
            self.wf(),
            self.strong() >= 1,
        ensures
            Some(*r) == self.payload(),
    {
        match &self.data {
            Some(v) => v,
            None => unreached(),
        }
    }
}

impl<T> Arc<T> {
    /// Allocate a fresh block owned by one strong handle: strong count one,
    /// allocation count one — the owners' implicit weak handle.
    pub fn new(data: T) -> (r: (ArcData<T>, Arc<T>))
        ensures
            r.0.wf(),
            r.0.strong() == 1,
            r.0.allocs() == 1,
            r.0.payload() == Some(data),
    {
        (
            ArcData { data: Some(data), ref_count: 1, alloc_ref_count: 1 },
            Arc { no_forge: PhantomData },
        )
    }

    /// Whether the caller's strong handle is the only handle of any kind,
    /// so that mutable access through [`Arc::get_mut`] is safe.  The
    /// allocation count is claimed with the sentinel first, the strong
    /// count checked second, and the claim restored: no weak handle can be
    /// minted between the two checks, which is what makes the answer
    /// trustworthy.
    pub fn is_unique(arc: &Arc<T>, d: &mut ArcData<T>) -> (r: bool)
        requires
            old(d).wf(),
            old(d).strong() >= 1,
        ensures
            *final(d) == *old(d),
            r == (old(d).allocs() == 1 && old(d).strong() == 1),
    {
        let (claimed_word, claimed) = claim_allocs(d.alloc_ref_count);
        if !claimed {
            return false;
        }
        d.alloc_ref_count = claimed_word;
        let alone = d.ref_count == 1;
        d.alloc_ref_count = 1;
        alone
    }

    /// Exclusive mutable access to the payload, for a handle that
    /// [`Arc::is_unique`] has shown to be alone.
    pub fn get_mut<'a>(arc: &Arc<T>, d: &'a mut ArcData<T>) -> (r: &'a mut T)
        requires
            old(d).wf(),
            old(d).strong() == 1,
            old(d).allocs() == 1,
        ensures
            Some(*r) == old(d).payload(),
            final(d).payload() == Some(*final(r)),
            final(d).strong() == old(d).strong(),
            final(d).allocs() == old(d).allocs(),
            final(d).wf(),
    {
        match &mut d.data {
            Some(v) => v,
            None => unreached(),
        }
    }

    /// Mint a weak handle from a strong one: the allocation count rises by
    /// one.  The real downgrade spins while the count is claimed; the
    /// sentinel never rests there, so between operations the retry loop
    /// always finds an ordinary count, and a count one short of the
    /// sentinel is a fatal overflow, ruled out well before by the abort
    /// threshold.
    pub fn downgrade(arc: &Arc<T>, d: &mut ArcData<T>) -> (w: Weak<T>)
        requires
            old(d).wf(),
            old(d).strong() >= 1,
            old(d).allocs() < MAX_HANDLES,
        ensures
            final(d).wf(),
            final(d).rc_model() == old(d).rc_model(),
            final(d).block_model() == block_step(old(d).block_model(), BlockOp::Downgrade),
            final(d).strong() == old(d).strong(),
            final(d).allocs() == old(d).allocs() + 1,
            final(d).payload() == old(d).payload(),
    {
        let spin = downgrade_should_spin(d.alloc_ref_count);
        if spin {
            unreached()
        } else {
            d.alloc_ref_count = d.alloc_ref_count + 1;
            Weak { no_forge: PhantomData }
        }
    }
}

impl<T> Weak<T> {
    /// Attempt to obtain a strong handle: succeeds exactly while at least
    /// one strong handle still exists, raising the strong count alone;
    /// after the payload has died this returns nothing, now and forever.
    pub fn upgrade(&self, d: &mut ArcData<T>) -> (r: Option<Arc<T>>)
        requires
            old(d).wf(),
            old(d).strong() < MAX_HANDLES,
        ensures
            final(d).wf(),
            r is Some <==> old(d).strong() >= 1,
            r is Some ==> {
                &&& final(d).rc_model() == rc_step(old(d).rc_model(), RcOp::UpgradeWeak)
                &&& final(d).block_model() == block_step(old(d).block_model(), BlockOp::Upgrade)
                &&& final(d).allocs() == old(d).allocs()
                &&& final(d).payload() == old(d).payload()
            },
            r is None ==> *final(d) == *old(d),
    {
        if d.ref_count == 0 {
            None
        } else {
            d.ref_count = d.ref_count + 1;
            Some(Arc { no_forge: PhantomData })
        }
    }
}

} // verus!
