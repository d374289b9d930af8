//! A blocking mutex built on a three-valued state word.
//!
//! The real lock keeps the word in an atomic: `UNLOCKED`, `LOCKED` (held, no
//! waiter recorded) or `CONTENDED` (held, and some thread has gone to sleep
//! on the word).  Acquisition first tries a single compare-and-swap from
//! `UNLOCKED` to `LOCKED`; under contention it spins a bounded number of
//! times and then swaps the word to `CONTENDED` before sleeping, and release
//! swaps the word back to `UNLOCKED`, waking one sleeper exactly when the
//! word said `CONTENDED`.  The word transitions are the free functions
//! below, so a blocking loop outside this crate takes every decision through
//! verified code; the [`Mutex`] type itself carries the protected value and
//! hands it out through a [`MutexGuard`] that cannot be duplicated, so the
//! value lives in exactly one place at any time.
//!
//! [`IncrementWorkload`] states the lock's counting law: however an
//! interleaving of any number of incrementing threads is scheduled, once all
//! of them have finished, a counter protected by the mutex holds exactly the
//! number of increments performed.

use vstd::prelude::*;

verus! {

/// The word of a mutex nobody holds.
pub const UNLOCKED: u32 = 0;

/// The word of a held mutex with no waiter recorded.
pub const LOCKED: u32 = 1;

/// The word of a held mutex on which some thread may be sleeping; release
/// must wake one.
pub const CONTENDED: u32 = 2;

/// How many times an acquisition re-polls a `LOCKED` word before it records
/// contention and sleeps.
pub const SPIN_LIMIT: u32 = 100;

/// One compare-and-swap of the word from `UNLOCKED` to `LOCKED`: the fast
/// path of acquisition.  Returns the new word and whether the lock was taken.
pub fn try_acquire_word(w: u32) -> (r: (u32, bool))
    ensures
        r.1 == (w == UNLOCKED),
        r.0 == if w == UNLOCKED { LOCKED } else { w },
{
    if w == UNLOCKED {
        (LOCKED, true)
    } else {
        (w, false)
    }
}

/// Whether a contended acquisition keeps re-polling the word instead of
/// going to sleep: only while the word is `LOCKED` (a sleeper would not be
/// woken from that state) and the spin budget is not exhausted.
pub fn keep_spinning(w: u32, spins: u32) -> (b: bool)
    ensures
        b == (w == LOCKED && spins < SPIN_LIMIT),
{
    w == LOCKED && spins < SPIN_LIMIT
}

/// One swap of the word to `CONTENDED`, performed before sleeping on the
/// word: whatever the word was, afterwards a release will wake somebody.
/// The swap acquires the lock exactly when the previous word was `UNLOCKED`.
pub fn contend_word(w: u32) -> (r: (u32, bool))
    ensures
        r.0 == CONTENDED,
        r.1 == (w == UNLOCKED),
{
    (CONTENDED, w == UNLOCKED)
}

/// One swap of the word back to `UNLOCKED`: release.  One sleeper must be
/// woken exactly when the previous word recorded contention.
pub fn release_word(w: u32) -> (r: (u32, bool))
    ensures
        r.0 == UNLOCKED,
        r.1 == (w == CONTENDED),
{
    (UNLOCKED, w == CONTENDED)
}

/// Blocking mutual exclusion around a value of type `T`.
///
/// The value is present exactly while the mutex is unlocked; `lock` moves it
/// into the guard and `unlock` moves it back, so exclusive access is not an
/// assertion but a fact of ownership.
pub struct Mutex<T> {
    state: u32,
    value: Option<T>,
}

/// Exclusive access to the value guarded by a [`Mutex`].  The guard owns the
/// value until it is given back through [`Mutex::unlock`]; guards cannot be
/// cloned.
pub struct MutexGuard<T> {
    value: T,
}

impl<T> View for MutexGuard<T> {
    type V = T;

    closed spec fn view(&self) -> T {
        self.value
    }
}

impl<T> MutexGuard<T> {
    /// Read the guarded value.
    pub fn get(&self) -> (r: &T)
        ensures
            *r == self@,
    {
        &self.value
    }

    /// Replace the guarded value.
    pub fn set(&mut self, v: T)
        ensures
            final(self)@ == v,
    {
        self.value = v;
    }

    /// Mutable access to the guarded value.
    pub fn value_mut(&mut self) -> (r: &mut T)
        ensures
            *r == old(self)@,
            final(self)@ == *final(r),
    {
        &mut self.value
    }
}

impl<T> Mutex<T> {
    /// The state word: `UNLOCKED`, `LOCKED` or `CONTENDED`.
    pub closed spec fn word(self) -> u32 {
        self.state
    }

    /// Whether some guard is outstanding.
    pub open spec fn is_locked(self) -> bool {
        self.word() != UNLOCKED
    }

    /// The value held by the mutex while it is unlocked.
    pub closed spec fn contents(self) -> Option<T> {
        self.value
    }

    /// The word is one of the three protocol values, and the mutex holds the
    /// value exactly while it is unlocked.
    pub open spec fn wf(self) -> bool {
        self.word() <= CONTENDED && (self.contents() is Some <==> self.word() == UNLOCKED)
    }

    /// A fresh mutex is unlocked and holds `val`.
    pub fn new(val: T) -> (m: Mutex<T>)
        ensures
            m.wf(),
            !m.is_locked(),
            m.contents() == Some(val),
    {
        Mutex { state: UNLOCKED, value: Some(val) }
    }

    /// Acquire the mutex, obtaining the guarded value.  Acquiring a mutex
    /// that is already held blocks until it is released; a single caller
    /// that re-locks would therefore wait forever, so the mutex must be
    /// unlocked here.
    pub fn lock(&mut self) -> (g: MutexGuard<T>)
        requires
            old(self).wf(),
            !old(self).is_locked(),
        ensures
            final(self).wf(),
            final(self).word() == LOCKED,
            final(self).contents() is None,
            old(self).contents() == Some(g@),
    {
        self.state = LOCKED;
        let v = self.value.take();
        MutexGuard { value: v.unwrap() }
    }

    /// Record contention on a held mutex: what a blocked acquirer does to
    /// the word before sleeping on it, so that the eventual release knows
    /// to wake somebody.
    pub fn mark_contended(&mut self)
        requires
            old(self).wf(),
            old(self).is_locked(),
        ensures
            final(self).wf(),
            final(self).word() == CONTENDED,
            final(self).contents() == old(self).contents(),
    {
        self.state = CONTENDED;
    }

    /// Release the mutex, giving the value back.  Returns whether one
    /// sleeping thread must be woken: exactly when the word had recorded
    /// contention.
    pub fn unlock(&mut self, g: MutexGuard<T>) -> (wake: bool)
        requires
            old(self).wf(),
            old(self).is_locked(),
        ensures
            final(self).wf(),
            final(self).word() == UNLOCKED,
            final(self).contents() == Some(g@),
            wake == (old(self).word() == CONTENDED),
    {
        let wake = self.state == CONTENDED;
        self.state = UNLOCKED;
        self.value = Some(g.value);
        wake
    }

    /// Consume an unlocked mutex and return the value it protects.
    pub fn into_inner(self) -> (v: T)
        requires
            self.wf(),
            !self.is_locked(),
        ensures
            self.contents() == Some(v),
    {
        self.value.unwrap()
    }
}

/// The sum of a sequence of counters.
pub open spec fn work_sum(s: Seq<u64>) -> int
    decreases s.len(),
{
    if s.len() == 0 {
        0
    } else {
        work_sum(s.drop_last()) + s.last()
    }
}

proof fn lemma_work_sum_nonneg(s: Seq<u64>)
    ensures
        work_sum(s) >= 0,
    decreases s.len(),
{
    if s.len() > 0 {
        lemma_work_sum_nonneg(s.drop_last());
    }
}

proof fn lemma_work_sum_push(s: Seq<u64>, v: u64)
    ensures
        work_sum(s.push(v)) == work_sum(s) + v,
{
    assert(s.push(v).drop_last() =~= s);
}

proof fn lemma_work_sum_update(s: Seq<u64>, i: int, v: u64)
    requires
        0 <= i < s.len(),
    ensures
        work_sum(s.update(i, v)) == work_sum(s) - s[i] + v,
    decreases s.len(),
{
    if i == s.len() - 1 {
        assert(s.update(i, v).drop_last() =~= s.drop_last());
    } else {
        assert(s.update(i, v).drop_last() =~= s.drop_last().update(i, v));
        lemma_work_sum_update(s.drop_last(), i, v);
    }
}

proof fn lemma_work_sum_ge_elem(s: Seq<u64>, i: int)
    requires
        0 <= i < s.len(),
    ensures
        work_sum(s) >= s[i],
    decreases s.len(),
{
    if i == s.len() - 1 {
        lemma_work_sum_nonneg(s.drop_last());
    } else {
        lemma_work_sum_ge_elem(s.drop_last(), i);
    }
}

proof fn lemma_work_sum_zero(s: Seq<u64>)
    requires
        forall|j: int| 0 <= j < s.len() ==> s[j] == 0,
    ensures
        work_sum(s) == 0,
    decreases s.len(),
{
    if s.len() > 0 {
        lemma_work_sum_zero(s.drop_last());
    }
}

/// A fixed number of workers, each owing a fixed number of increments to one
/// counter protected by a [`Mutex`], driven by an arbitrary schedule.
///
/// Every step is taken by the worker the schedule names: a worker that does
/// not hold the lock and still has work acquires the lock if it is free (and
/// otherwise waits, doing nothing); a worker that holds the lock performs
/// one increment and releases it.  The invariant — counter plus outstanding
/// work equals the target — survives any schedule whatsoever, so whenever
/// all workers have finished, the counter equals workers times increments:
/// no interleaving of lock-protected increments can lose an update.
pub struct IncrementWorkload {
    counter: Mutex<u64>,
    remaining: Vec<u64>,
    holder: Option<(usize, MutexGuard<u64>)>,
    total: u64,
}

impl IncrementWorkload {
    /// How many workers there are.
    pub closed spec fn threads(self) -> nat {
        self.remaining@.len()
    }

    /// The number of increments all workers together must perform.
    pub closed spec fn target(self) -> int {
        self.total as int
    }

    /// The counter as of now: in the holder's guard while a worker has the
    /// lock, in the mutex otherwise.
    closed spec fn counter_now(self) -> int {
        match self.holder {
            Some(p) => p.1@ as int,
            None => match self.counter.contents() {
                Some(v) => v as int,
                None => 0,
            },
        }
    }

    /// All workers have finished and released the lock.
    pub closed spec fn is_done(self) -> bool {
        self.holder is None && forall|j: int| 0 <= j < self.remaining@.len() ==> self.remaining@[j] == 0
    }

    /// The workload invariant: the mutex is locked exactly while some worker
    /// holds its guard, a worker only holds the lock while it still owes an
    /// increment, and the counter plus the outstanding work equals the
    /// target.
    pub closed spec fn inv(self) -> bool {
        &&& self.counter.wf()
        &&& self.counter.is_locked() <==> self.holder is Some
        &&& match self.holder {
            Some(p) => p.0 < self.remaining@.len() && self.remaining@[p.0 as int] >= 1,
            None => true,
        }
        &&& self.counter_now() + work_sum(self.remaining@) == self.target()
    }

    /// Set up `n` workers of `k` increments each over a zeroed counter.
    pub fn new(n: usize, k: u64) -> (w: IncrementWorkload)
        requires
            n * k <= u64::MAX,
        ensures
            w.inv(),
            w.threads() == n,
            w.target() == n * k,
    {
        let mut remaining: Vec<u64> = Vec::new();
        let mut i: usize = 0;
        while i < n
            invariant
                i <= n,
                n * k <= u64::MAX,
                remaining@.len() == i,
                work_sum(remaining@) == i * k,
            decreases n - i,
        {
            proof {
                lemma_work_sum_push(remaining@, k);
                assert((i + 1) * k == i * k + k) by (nonlinear_arith);
            }
            remaining.push(k);
            i = i + 1;
        }
        let total: u64 = (n as u64) * k;
        IncrementWorkload { counter: Mutex::new(0), remaining, holder: None, total }
    }

    /// One step of worker `t`: acquire the lock if free and work remains, or
    /// perform one increment and release if `t` already holds it.  A worker
    /// named while another holds the lock simply waits.  The invariant holds
    /// again afterwards, whatever `t` the schedule picked.
    pub fn step(&mut self, t: usize)
        requires
            old(self).inv(),
            t < old(self).threads(),
        ensures
            final(self).inv(),
            final(self).threads() == old(self).threads(),
            final(self).target() == old(self).target(),
    {
        let h = self.holder.take();
        match h {
            Some((u, mut g)) => {
                if u == t {
                    proof {
                        lemma_work_sum_ge_elem(self.remaining@, u as int);
                    }
                    let v: u64 = *g.get();
                    g.set(v + 1);
                    let owed = self.remaining[u];
                    proof {
                        lemma_work_sum_update(self.remaining@, u as int, (owed - 1) as u64);
                    }
                    self.remaining[u] = owed - 1;
                    let _wake = self.counter.unlock(g);
                } else {
                    self.holder = Some((u, g));
                }
            },
            None => {
                if self.remaining[t] > 0 {
                    let g = self.counter.lock();
                    self.holder = Some((t, g));
                }
            },
        }
    }

    /// Run a whole schedule: each entry names the worker that moves next;
    /// entries naming no worker are ignored.  No schedule can break the
    /// invariant.
    pub fn run(&mut self, schedule: &Vec<usize>)
        requires
            old(self).inv(),
        ensures
            final(self).inv(),
            final(self).threads() == old(self).threads(),
            final(self).target() == old(self).target(),
    {
        let mut i: usize = 0;
        while i < schedule.len()
            invariant
                self.inv(),
                self.threads() == old(self).threads(),
                self.target() == old(self).target(),
            decreases schedule.len() - i,
        {
            let t = schedule[i];
            if t < self.remaining.len() {
                self.step(t);
            }
            i = i + 1;
        }
    }

    /// If every worker has finished, return the final counter: it is then
    /// exactly the target — workers times increments — regardless of the
    /// schedule that got here.  While work or a holder is outstanding,
    /// return nothing.
    pub fn finish(self) -> (r: Option<u64>)
        requires
            self.inv(),
        ensures
            r is Some <==> self.is_done(),
            r matches Some(v) ==> v == self.target(),
    {
        let IncrementWorkload { counter, remaining, holder, total } = self;
        match holder {
            Some(_) => None,
            None => {
                let n = remaining.len();
                let mut i: usize = 0;
                let mut all_zero = true;
                while i < n
                    invariant
                        i <= n,
                        n == remaining@.len(),
                        all_zero ==> forall|j: int| 0 <= j < i ==> remaining@[j] == 0,
                        !all_zero ==> exists|j: int| 0 <= j < i && remaining@[j] != 0,
                    decreases n - i,
                {
                    if remaining[i] != 0 {
                        all_zero = false;
                    }
                    i = i + 1;
                }
                if all_zero {
                    proof {
                        lemma_work_sum_zero(remaining@);
                    }
                    Some(counter.into_inner())
                } else {
                    None
                }
            },
        }
    }
}

} // verus!
