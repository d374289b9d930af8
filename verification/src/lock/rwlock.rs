//! A reader-writer lock on a single state word, with a separate wake counter
//! for writers.
//!
//! The word counts the readers currently holding the lock, or is the
//! sentinel [`WRITER`] while a writer holds it exclusively.  Readers enter
//! by raising the count by one — refusing to let it reach the value just
//! below the sentinel, which would make the two indistinguishable — and the
//! last reader to leave bumps the writer-wait counter so a starved writer
//! re-checks the word.  A writer enters by moving the word from zero
//! straight to the sentinel and leaves by resetting it to zero.
//!
//! The value lives inside the lock while readers share it and moves into the
//! [`WriteGuard`] while a writer holds it, so shared reading and exclusive
//! writing cannot overlap by construction.  [`lemma_writer_exclusive`]
//! states the same at the protocol level: along any sequence of permitted
//! acquisitions and releases, a writer never coexists with a reader.

use vstd::prelude::*;

verus! {

/// The sentinel word meaning a writer holds the lock exclusively.
pub const WRITER: u32 = u32::MAX;

/// One attempt of a reader to raise the word by one.  The attempt is only
/// made while the word is below the sentinel, and a word just below the
/// sentinel is a fatal reader overflow, which the caller must rule out.
pub fn try_read_word(w: u32) -> (r: (u32, bool))
    requires
        w != WRITER - 1,
    ensures
        r.1 == (w < WRITER),
        r.0 == if w < WRITER { w + 1 } else { w as int },
{
    if w < WRITER {
        (w + 1, true)
    } else {
        (w, false)
    }
}

/// A departing reader lowers the word by one; the reader that lowers it to
/// zero must bump the writer-wait counter and wake one writer.
pub fn read_release_word(w: u32) -> (r: (u32, bool))
    requires
        1 <= w < WRITER,
    ensures
        r.0 == w - 1,
        r.1 == (w == 1),
{
    (w - 1, w == 1)
}

/// One attempt of a writer to move the word from zero to the sentinel.
pub fn try_write_word(w: u32) -> (r: (u32, bool))
    ensures
        r.1 == (w == 0),
        r.0 == if w == 0 { WRITER } else { w },
{
    if w == 0 {
        (WRITER, true)
    } else {
        (w, false)
    }
}

/// After a failed attempt, a writer sleeps on the wait counter only if the
/// word is still taken; if the lock freed in between, it retries at once.
pub fn writer_should_block(w: u32) -> (b: bool)
    ensures
        b == (w != 0),
{
    w != 0
}

/// The next value of the writer-wait counter: a wake signal.  The counter
/// only ever moves forward; wrapping is harmless because sleepers compare it
/// for equality only.
pub fn bump_wait_counter(c: u32) -> (r: u32)
    ensures
        r == (if c == u32::MAX { 0u32 } else { (c + 1) as u32 }),
{
    if c == u32::MAX {
        0
    } else {
        c + 1
    }
}

/// Multiple-reader single-writer access to a value of type `T`.
pub struct RwLock<T> {
    state: u32,
    writer_wait_counter: u32,
    value: Option<T>,
}

/// Evidence of one shared (read) borrow of the lock.  Read guards cannot be
/// duplicated and are consumed by [`RwLock::release_read`].
pub struct ReadGuard {
    no_forge: (),
}

/// Exclusive access to the value of a [`RwLock`].  The guard owns the value
/// until [`RwLock::release_write`] gives it back.
pub struct WriteGuard<T> {
    value: T,
}

impl<T> View for WriteGuard<T> {
    type V = T;

    closed spec fn view(&self) -> T {
        self.value
    }
}

impl<T> WriteGuard<T> {
    /// Read the guarded value.
    pub fn get(&self) -> (r: &T)
        ensures
            *r == self@,
    {
        &self.value
    }

    /// Replace the guarded value.
    pub fn set(&mut self, v: T)
        ensures
            final(self)@ == v,
    {
        self.value = v;
    }

    /// Mutable access to the guarded value.
    pub fn value_mut(&mut self) -> (r: &mut T)
        ensures
            *r == old(self)@,
            final(self)@ == *final(r),
    {
        &mut self.value
    }
}

impl<T> RwLock<T> {
    /// The state word: a reader count, or [`WRITER`].
    pub closed spec fn word(self) -> u32 {
        self.state
    }

    /// The writer-wait counter, bumped to signal sleeping writers.
    pub closed spec fn wait_word(self) -> u32 {
        self.writer_wait_counter
    }

    /// How many readers currently hold the lock.
    pub open spec fn readers(self) -> nat {
        if self.word() == WRITER {
            0
        } else {
            self.word() as nat
        }
    }

    /// Whether a writer currently holds the lock.
    pub open spec fn writer_active(self) -> bool {
        self.word() == WRITER
    }

    /// The value held inside the lock; absent exactly while a writer owns it
    /// through its guard.
    pub closed spec fn contents(self) -> Option<T> {
        self.value
    }

    /// The lock holds the value exactly while no writer does.
    pub open spec fn wf(self) -> bool {
        self.contents() is Some <==> !self.writer_active()
    }

    /// The protocol-level state this lock is in.
    pub open spec fn model(self) -> RwModel {
        RwModel { readers: self.readers(), writer: self.writer_active() }
    }

    /// A fresh lock has no readers, no writer, and holds `val`.
    pub fn new(val: T) -> (l: RwLock<T>)
        ensures
            l.wf(),
            l.word() == 0,
            l.wait_word() == 0,
            l.contents() == Some(val),
    {
        RwLock { state: 0, writer_wait_counter: 0, value: Some(val) }
    }

    /// Acquire the lock for shared reading.  A reader blocks while a writer
    /// holds the lock, and one reader short of the sentinel is a fatal
    /// overflow, so the word must be below both.
    pub fn read(&mut self) -> (g: ReadGuard)
        requires
            old(self).wf(),
            old(self).word() < WRITER - 1,
        ensures
            final(self).wf(),
            final(self).word() == old(self).word() + 1,
            final(self).wait_word() == old(self).wait_word(),
            final(self).contents() == old(self).contents(),
            final(self).model() == rw_step(old(self).model(), RwOp::AcquireRead),
    {
        let (next, _ok) = try_read_word(self.state);
        self.state = next;
        ReadGuard { no_forge: () }
    }

    /// Read the value while holding a read guard.
    pub fn read_value(&self, g: &ReadGuard) -> (r: &T)
        requires
            self.wf(),
            !self.writer_active(),
        ensures
            Some(*r) == self.contents(),
    {
        match &self.value {
            Some(v) => v,
            None => unreached(),
        }
    }

    /// Give back a read guard.  The reader that brings the count to zero
    /// bumps the writer-wait counter; the returned flag says whether one
    /// sleeping writer must be woken.
    pub fn release_read(&mut self, g: ReadGuard) -> (wake_writer: bool)
        requires
            old(self).wf(),
            1 <= old(self).word() < WRITER,
        ensures
            final(self).wf(),
            final(self).word() == old(self).word() - 1,
            final(self).contents() == old(self).contents(),
            wake_writer == (old(self).word() == 1),
            final(self).wait_word() == (if wake_writer {
                bump_wait_spec(old(self).wait_word())
            } else {
                old(self).wait_word()
            }),
            final(self).model() == rw_step(old(self).model(), RwOp::ReleaseRead),
    {
        let (next, wake) = read_release_word(self.state);
        self.state = next;
        if wake {
            self.writer_wait_counter = bump_wait_counter(self.writer_wait_counter);
        }
        wake
    }

    /// Acquire the lock for exclusive writing, taking the value.  A writer
    /// blocks until the word is zero — no readers and no other writer.
    pub fn write(&mut self) -> (g: WriteGuard<T>)
        requires
            old(self).wf(),
            old(self).word() == 0,
        ensures
            final(self).wf(),
            final(self).word() == WRITER,
            final(self).wait_word() == old(self).wait_word(),
            old(self).contents() == Some(g@),
            final(self).model() == rw_step(old(self).model(), RwOp::AcquireWrite),
    {
        let (next, _ok) = try_write_word(self.state);
        self.state = next;
        let v = self.value.take();
        WriteGuard { value: v.unwrap() }
    }

    /// Give back a write guard and its value.  The word resets to zero and
    /// the writer-wait counter is bumped: every sleeping reader and one
    /// sleeping writer are to be woken.
    pub fn release_write(&mut self, g: WriteGuard<T>)
        requires
            old(self).wf(),
            old(self).writer_active(),
        ensures
            final(self).wf(),
            final(self).word() == 0,
            final(self).contents() == Some(g@),
            final(self).wait_word() == bump_wait_spec(old(self).wait_word()),
            final(self).model() == rw_step(old(self).model(), RwOp::ReleaseWrite),
    {
        self.state = 0;
        self.writer_wait_counter = bump_wait_counter(self.writer_wait_counter);
        self.value = Some(g.value);
    }
}

/// The next wake-signal value: addition that wraps around.
pub open spec fn bump_wait_spec(c: u32) -> u32 {
    if c == u32::MAX {
        0
    } else {
        (c + 1) as u32
    }
}

/// The protocol-level state of a reader-writer lock: how many readers hold
/// it, and whether a writer does.
pub struct RwModel {
    /// The number of read guards outstanding.
    pub readers: nat,
    /// Whether a write guard is outstanding.
    pub writer: bool,
}

/// The four protocol events of a reader-writer lock.
pub enum RwOp {
    /// A reader enters.
    AcquireRead,
    /// A reader leaves.
    ReleaseRead,
    /// A writer enters.
    AcquireWrite,
    /// A writer leaves.
    ReleaseWrite,
}

/// When the protocol permits an event: readers are kept out while a writer
/// holds the lock, and a writer enters only an entirely free lock.
pub open spec fn rw_enabled(s: RwModel, op: RwOp) -> bool {
    match op {
        RwOp::AcquireRead => !s.writer,
        RwOp::ReleaseRead => !s.writer && s.readers >= 1,
        RwOp::AcquireWrite => !s.writer && s.readers == 0,
        RwOp::ReleaseWrite => s.writer,
    }
}

/// The effect of a permitted event.
pub open spec fn rw_step(s: RwModel, op: RwOp) -> RwModel {
    match op {
        RwOp::AcquireRead => RwModel { readers: s.readers + 1, ..s },
        RwOp::ReleaseRead => RwModel { readers: (s.readers - 1) as nat, ..s },
        RwOp::AcquireWrite => RwModel { writer: true, ..s },
        RwOp::ReleaseWrite => RwModel { writer: false, ..s },
    }
}

/// Whether a whole sequence of events is permitted from `s`.
pub open spec fn rw_trace_enabled(s: RwModel, ops: Seq<RwOp>) -> bool
    decreases ops.len(),
{
    ops.len() == 0 || (rw_enabled(s, ops[0]) && rw_trace_enabled(rw_step(s, ops[0]), ops.drop_first()))
}

/// The state after a whole sequence of events.
pub open spec fn rw_run(s: RwModel, ops: Seq<RwOp>) -> RwModel
    decreases ops.len(),
{
    if ops.len() == 0 {
        s
    } else {
        rw_run(rw_step(s, ops[0]), ops.drop_first())
    }
}

/// A write guard never coexists with any other guard: along any permitted
/// sequence of events, whenever a writer holds the lock the reader count is
/// zero — and a second writer cannot enter at all.
pub proof fn lemma_writer_exclusive(s: RwModel, ops: Seq<RwOp>)
    requires
        s.writer ==> s.readers == 0,
        rw_trace_enabled(s, ops),
    ensures
        rw_run(s, ops).writer ==> rw_run(s, ops).readers == 0,
    decreases ops.len(),
{
    if ops.len() > 0 {
        lemma_writer_exclusive(rw_step(s, ops[0]), ops.drop_first());
    }
}

} // verus!
