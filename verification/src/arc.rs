//! Reference-counted shared ownership.
//!
//! Three variants share one discipline: a control block holds the payload
//! and a *strong* count of owning handles; the payload is alive exactly
//! while the strong count is positive, and the handle that moves the count
//! from one to zero is the sole destroyer of the payload.  The submodules
//! differ in how they keep the block itself alive for weak handles.
//!
//! The handle events common to every variant — cloning a strong handle,
//! dropping one, and upgrading a weak handle into a strong one — are the
//! state machine below.  Its two laws hold along any interleaving of
//! events: the payload is destroyed exactly once, when the last strong
//! handle goes ([`lemma_destroyed_exactly_once`]); and once the strong
//! count has reached zero nothing can raise it again, so an upgrade never
//! resurrects a dead payload ([`lemma_no_resurrection`]).

pub mod basic;
pub mod optimiz;
pub mod weak;

use vstd::prelude::*;

verus! {

/// Counts are kept well away from their representable maximum: a clone that
/// would push a count to this threshold aborts rather than risk a wrapped
/// count and a use-after-free.
pub const MAX_HANDLES: usize = usize::MAX / 2;

/// The strong-count state every variant shares: how many owning handles
/// exist, and whether the payload is still alive.
pub struct RcState {
    /// The number of strong handles.
    pub strong: nat,
    /// Whether the payload has not yet been destroyed.
    pub live: bool,
}

/// The handle events that touch the strong count.
pub enum RcOp {
    /// An existing strong handle is cloned.
    CloneStrong,
    /// A strong handle is dropped; if it was the last, the payload dies.
    DropStrong,
    /// A weak handle is upgraded — the successful case, which mints a new
    /// strong handle.  A failed upgrade changes nothing.
    UpgradeWeak,
}

/// The payload is alive exactly while somebody owns it.
pub open spec fn rc_wf(s: RcState) -> bool {
    s.live <==> s.strong >= 1
}

/// When an event can occur: each one needs a strong handle to exist.
/// Cloning and dropping consume a handle the caller holds; an upgrade
/// succeeds only while the strong count it read was positive.
pub open spec fn rc_enabled(s: RcState, op: RcOp) -> bool {
    s.strong >= 1
}

/// The effect of an event.
pub open spec fn rc_step(s: RcState, op: RcOp) -> RcState {
    match op {
        RcOp::CloneStrong => RcState { strong: s.strong + 1, live: s.live },
        RcOp::DropStrong => RcState { strong: (s.strong - 1) as nat, live: s.strong > 1 },
        RcOp::UpgradeWeak => RcState { strong: s.strong + 1, live: s.live },
    }
}

/// Whether a whole sequence of events is permitted from `s`.
pub open spec fn rc_trace_enabled(s: RcState, ops: Seq<RcOp>) -> bool
    decreases ops.len(),
{
    ops.len() == 0 || (rc_enabled(s, ops[0]) && rc_trace_enabled(rc_step(s, ops[0]), ops.drop_first()))
}

/// The state after a whole sequence of events.
pub open spec fn rc_run(s: RcState, ops: Seq<RcOp>) -> RcState
    decreases ops.len(),
{
    if ops.len() == 0 {
        s
    } else {
        rc_run(rc_step(s, ops[0]), ops.drop_first())
    }
}

/// How many events of a sequence destroy the payload: the drops taken when
/// exactly one strong handle was left.
pub open spec fn rc_destroys(s: RcState, ops: Seq<RcOp>) -> nat
    decreases ops.len(),
{
    if ops.len() == 0 {
        0
    } else {
        (if ops[0] is DropStrong && s.strong == 1 {
            1nat
        } else {
            0nat
        }) + rc_destroys(rc_step(s, ops[0]), ops.drop_first())
    }
}

/// Liveness is preserved by every permitted event.
pub proof fn lemma_rc_wf_preserved(s: RcState, ops: Seq<RcOp>)
    requires
        rc_wf(s),
        rc_trace_enabled(s, ops),
    ensures
        rc_wf(rc_run(s, ops)),
    decreases ops.len(),
{
    if ops.len() > 0 {
        lemma_rc_wf_preserved(rc_step(s, ops[0]), ops.drop_first());
    }
}

/// Once the strong count reaches zero it stays zero and nothing is ever
/// destroyed again: every event needs a strong handle, so no permitted
/// event remains at all.  In particular an upgrade can never resurrect the
/// payload after the last strong handle is gone.
pub proof fn lemma_no_resurrection(s: RcState, ops: Seq<RcOp>)
    requires
        s.strong == 0,
        rc_trace_enabled(s, ops),
    ensures
        rc_run(s, ops).strong == 0,
        rc_destroys(s, ops) == 0,
    decreases ops.len(),
{
    if ops.len() > 0 {
        lemma_no_resurrection(rc_step(s, ops[0]), ops.drop_first());
    }
}

/// The payload is destroyed exactly once, however clones, drops and
/// upgrades interleave: never twice, and precisely when the strong count
/// has come down to zero.
pub proof fn lemma_destroyed_exactly_once(s: RcState, ops: Seq<RcOp>)
    requires
        rc_wf(s),
        rc_trace_enabled(s, ops),
    ensures
        rc_destroys(s, ops) <= 1,
        s.strong >= 1 ==> (rc_destroys(s, ops) == 1 <==> rc_run(s, ops).strong == 0),
    decreases ops.len(),
{
    if ops.len() > 0 {
        let s1 = rc_step(s, ops[0]);
        lemma_destroyed_exactly_once(s1, ops.drop_first());
        if ops[0] is DropStrong && s.strong == 1 {
            lemma_no_resurrection(s1, ops.drop_first());
        }
    }
}

} // verus!
