use std::sync::atomic::AtomicU64;
use std::sync::atomic::Ordering;
use std::time::Instant;

use syncprims::lock::condvar::Condvar;
use syncprims::lock::mutex::IncrementWorkload;
use syncprims::lock::mutex::Mutex;
use syncprims::lock::mutex::CONTENDED;
use syncprims::lock::mutex::LOCKED;
use syncprims::lock::mutex::UNLOCKED;
use syncprims::lock::mutex::{contend_word, keep_spinning, release_word, try_acquire_word};
use syncprims::lock::rwlock::RwLock;
use syncprims::lock::rwlock::WRITER;
use syncprims::lock::rwlock::{
    bump_wait_counter, read_release_word, try_read_word, try_write_word, writer_should_block,
};
use syncprims::lock::spin::SpinLock;
use syncprims::lock::unsafe_spin::UnsafeSpinLock;

#[test]
fn test_add() {
    assert_eq!(2 + 2, 4);
}

#[test]
fn mutex_benckmark() {
    let mut m = Mutex::new(0u64);
    let start = Instant::now();
    for _ in 0..5_000_000 {
        let mut g = m.lock();
        let v = *g.get();
        g.set(v + 1);
        m.unlock(g);
    }
    let g = m.lock();
    let total = *g.get();
    m.unlock(g);
    println!("{} increments in {} ms", total, start.elapsed().as_millis());
    assert_eq!(total, 5_000_000);
}

#[test]
fn test_cost() {
    let a = AtomicU64::new(0);
    std::hint::black_box(&a);
    let start = Instant::now();
    for _ in 0..1_000_000_000u64 {
        std::hint::black_box(a.load(Ordering::Relaxed));
    }
    println!("{} ms", start.elapsed().as_millis());
}

#[test]
fn mutex_lock_roundtrip() {
    let mut m = Mutex::new(41u32);
    let mut g = m.lock();
    assert_eq!(*g.get(), 41);
    g.set(42);
    let woke = m.unlock(g);
    assert!(!woke, "an uncontended unlock wakes nobody");
    assert_eq!(m.into_inner(), 42);
}

#[test]
fn mutex_contended_unlock_wakes_a_sleeper() {
    let mut m = Mutex::new(0u8);
    let g = m.lock();
    // A blocked acquirer records contention before sleeping on the word.
    m.mark_contended();
    assert!(m.unlock(g), "release of a contended mutex wakes one sleeper");
}

#[test]
fn mutex_word_protocol() {
    // The fast path takes a free lock and nothing else.
    assert_eq!(try_acquire_word(UNLOCKED), (LOCKED, true));
    assert_eq!(try_acquire_word(LOCKED), (LOCKED, false));
    assert_eq!(try_acquire_word(CONTENDED), (CONTENDED, false));
    // The slow path spins only on a quietly held lock, within budget.
    assert!(keep_spinning(LOCKED, 0));
    assert!(keep_spinning(LOCKED, 99));
    assert!(!keep_spinning(LOCKED, 100));
    assert!(!keep_spinning(UNLOCKED, 0));
    assert!(!keep_spinning(CONTENDED, 0));
    // Marking contention acquires the lock exactly if it was free.
    assert_eq!(contend_word(UNLOCKED), (CONTENDED, true));
    assert_eq!(contend_word(LOCKED), (CONTENDED, false));
    assert_eq!(contend_word(CONTENDED), (CONTENDED, false));
    // Release wakes a sleeper exactly if contention was recorded.
    assert_eq!(release_word(LOCKED), (UNLOCKED, false));
    assert_eq!(release_word(CONTENDED), (UNLOCKED, true));
}

#[test]
fn rwlock_word_protocol() {
    // A reader raises any non-writer word by one and is refused otherwise.
    assert_eq!(try_read_word(0), (1, true));
    assert_eq!(try_read_word(7), (8, true));
    assert_eq!(try_read_word(WRITER), (WRITER, false));
    // A departing reader lowers the word; the last one signals a writer.
    assert_eq!(read_release_word(2), (1, false));
    assert_eq!(read_release_word(1), (0, true));
    // A writer claims only an entirely free lock.
    assert_eq!(try_write_word(0), (WRITER, true));
    assert_eq!(try_write_word(3), (3, false));
    assert_eq!(try_write_word(WRITER), (WRITER, false));
    // After a failed claim the writer sleeps only if the lock is still taken.
    assert!(writer_should_block(5));
    assert!(!writer_should_block(0));
    // The wake counter only moves forward, wrapping at the end.
    assert_eq!(bump_wait_counter(0), 1);
    assert_eq!(bump_wait_counter(u32::MAX), 0);
}

#[test]
fn workload_round_robin_schedule() {
    // Ten workers, a hundred increments each, scheduled in strict rotation.
    // A turn taken while another worker holds the lock is spent waiting, so
    // each rotation completes about one increment; give it ample rounds.
    let mut w = IncrementWorkload::new(10, 100);
    let mut schedule: Vec<usize> = Vec::new();
    for _ in 0..1200 {
        for t in 0..10 {
            schedule.push(t);
        }
    }
    w.run(&schedule);
    assert_eq!(w.finish(), Some(1000));
}

#[test]
fn workload_scrambled_schedule() {
    // Four workers, twenty-five increments each, under a pseudo-random
    // schedule: the counter still comes out exact.
    let mut w = IncrementWorkload::new(4, 25);
    let mut schedule: Vec<usize> = Vec::new();
    let mut x: u64 = 0x2545_f491_4f6c_dd1d;
    for _ in 0..4000 {
        x ^= x << 13;
        x ^= x >> 7;
        x ^= x << 17;
        schedule.push((x % 4) as usize);
    }
    w.run(&schedule);
    assert_eq!(w.finish(), Some(100));
}

#[test]
fn workload_unfinished_schedule() {
    // A schedule too short to finish the work yields no final count.
    let mut w = IncrementWorkload::new(2, 3);
    let schedule: Vec<usize> = vec![0, 0, 1];
    w.run(&schedule);
    assert_eq!(w.finish(), None);
}

#[test]
fn workload_no_workers() {
    let w = IncrementWorkload::new(0, 17);
    assert_eq!(w.finish(), Some(0));
}

#[test]
fn condvar_notify_before_wait_is_not_missed() {
    // The waiter captures the counter while holding the mutex; a
    // notification that lands before it would go to sleep changes the
    // counter, so the sleep is refused and the wakeup cannot be lost.
    let mut cv = Condvar::new();
    let mut m = Mutex::new(0u32);
    let g = m.lock();
    let captured = cv.wait_begin();
    assert!(cv.wait_should_block(captured), "nothing has happened yet");
    let _wake = m.unlock(g);
    // The notifier runs now, after the capture and before the sleep.
    assert!(cv.notify_one(), "a registered waiter gets the wakeup");
    assert!(!cv.wait_should_block(captured), "the counter moved: do not sleep");
    cv.wait_finish();
}

#[test]
fn condvar_notify_without_waiters_is_skipped() {
    let mut cv = Condvar::new();
    assert!(!cv.notify_one());
    assert!(!cv.notify_all());
}

#[test]
fn condvar_wait_returns_the_guarded_value() {
    let mut cv = Condvar::new();
    let mut m = Mutex::new(123u32);
    let g = m.lock();
    let g = cv.wait(&mut m, g);
    assert_eq!(*g.get(), 123);
    let _wake = m.unlock(g);
}

#[test]
fn rwlock_many_readers_share() {
    let mut l = RwLock::new(5u32);
    let r1 = l.read();
    let r2 = l.read();
    let r3 = l.read();
    assert_eq!(*l.read_value(&r1), 5);
    assert_eq!(*l.read_value(&r2), 5);
    assert_eq!(*l.read_value(&r3), 5);
    assert!(!l.release_read(r1), "readers remain: no writer wakeup yet");
    assert!(!l.release_read(r2), "readers remain: no writer wakeup yet");
    assert!(l.release_read(r3), "the last reader out signals a writer");
}

#[test]
fn rwlock_writer_is_exclusive() {
    let mut l = RwLock::new(5u32);
    let mut g = l.write();
    assert_eq!(*g.get(), 5);
    g.set(6);
    l.release_write(g);
    let r = l.read();
    assert_eq!(*l.read_value(&r), 6);
    let _wake = l.release_read(r);
}

#[test]
fn spinlock_flag_roundtrip() {
    let mut s = SpinLock::new();
    s.lock();
    s.unlock();
    s.lock();
    s.unlock();
}

#[test]
fn unsafe_spinlock_guarded_access() {
    let mut s = UnsafeSpinLock::new(10i64);
    let g = s.lock();
    assert_eq!(*s.get(&g), 10);
    s.set(&g, 11);
    assert_eq!(*s.get(&g), 11);
    s.unlock();
    let g2 = s.lock();
    assert_eq!(*s.get(&g2), 11);
    s.unlock();
}
