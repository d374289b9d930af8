//! Concurrency primitives modelled as explicit state machines.
//!
//! Each primitive of the library — spin locks, a futex-style mutex, a
//! condition variable, a reader-writer lock, reference-counted handles and
//! several one-shot channels — is given here as a state machine over plain
//! values: the state words that the real implementations keep in atomics are
//! ordinary integers, handles and guards are linear values that the type
//! system prevents from being duplicated, and every transition carries a
//! contract that pins down exactly how the state changes.  The blocking
//! loops that drive these transitions with atomics and futex waits live in
//! client code; the decisions they take are all made by the verified
//! functions of this crate.

pub mod arc;
pub mod channel;
pub mod lock;
