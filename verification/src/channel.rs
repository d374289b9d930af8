//! Rendezvous channels: one value, one sender, one receiver.
//!
//! Four designs deliver at most one value per handshake.  [`one_shot`]
//! drives a four-state tag forward and treats misuse as fatal;
//! [`avoid_brrow`] is reusable through a `split` that resets it and hands
//! out single-use endpoints; [`safety`] gives the endpoints shared
//! ownership of the channel state instead of borrows; and [`mutex_chan`]
//! is the conventional queue behind a mutex and a condition variable.

pub mod avoid_brrow;
pub mod mutex_chan;
pub mod one_shot;
pub mod safety;
