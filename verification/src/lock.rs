//! Mutual-exclusion primitives: spin locks, a futex-style mutex and its
//! guard, a condition variable, and a reader-writer lock.

pub mod condvar;
pub mod mutex;
pub mod rwlock;
pub mod spin;
pub mod unsafe_spin;
