//! A reusable channel whose endpoints are single-use.
//!
//! The channel itself can be reset again and again: each `split` returns it
//! to the empty state and mints one sender and one receiver, each consumed
//! by its one operation.  In the real channel the endpoints borrow the
//! channel so it cannot disappear under a pending handshake, the sender
//! wakes the parked receiving thread directly, and the receiver parks until
//! the readiness flag can be swapped off.  Here the endpoints are unforgeable
//! values tied to the channel by the caller, the readiness flag is explicit,
//! and a receive demands readiness — the model of a receiver that parks
//! until woken.

use core::marker::PhantomData;

use vstd::prelude::*;

verus! {

/// Storage for one in-flight value plus a readiness flag.
pub struct Channel<T> {
    message: Option<T>,
    ready: bool,
}

/// The sending endpoint of one handshake; consumed by [`Sender::send`].
pub struct Sender<T> {
    no_forge: PhantomData<T>,
}

/// The receiving endpoint of one handshake; consumed by
/// [`Receiver::receive`].
pub struct Receiver<T> {
    no_forge: PhantomData<T>,
}

impl<T> Channel<T> {
    /// The in-flight message.
    pub closed spec fn message(self) -> Option<T> {
        self.message
    }

    /// Whether a sent message awaits the receiver.
    pub closed spec fn is_ready(self) -> bool {
        self.ready
    }

    /// Readiness is only ever raised over a written message.
    pub open spec fn wf(self) -> bool {
        self.is_ready() ==> self.message() is Some
    }

    /// A fresh channel is empty and not ready.
    pub fn new() -> (c: Channel<T>)
        ensures
            c.wf(),
            !c.is_ready(),
            c.message() is None,
    {
        Channel { message: None, ready: false }
    }

    /// Reset the channel and mint the endpoints of one handshake.  A
    /// message left unread by the previous handshake is destroyed in place
    /// by the reset.
    pub fn split(&mut self) -> (ends: (Sender<T>, Receiver<T>))
        ensures
            final(self).wf(),
            !final(self).is_ready(),
            final(self).message() is None,
    {
        self.message = None;
        self.ready = false;
        (Sender { no_forge: PhantomData }, Receiver { no_forge: PhantomData })
    }
}

impl<T> Sender<T> {
    /// Write the message, raise the readiness flag, and wake the receiver.
    /// The endpoint is consumed: one handshake carries one value.  The
    /// channel must be the freshly split one this endpoint belongs to.
    pub fn send(self, chan: &mut Channel<T>, message: T)
        requires
            old(chan).wf(),
            !old(chan).is_ready(),
        ensures
            final(chan).wf(),
            final(chan).is_ready(),
            final(chan).message() == Some(message),
    {
        chan.message = Some(message);
        chan.ready = true;
    }
}

impl<T> Receiver<T> {
    /// Take the message out, lowering the readiness flag.  The real
    /// receiver parks its thread until this swap succeeds; a receive
    /// therefore only completes on a ready channel, which is what the
    /// contract demands.  What was sent is exactly what comes out.
    pub fn receive(self, chan: &mut Channel<T>) -> (r: T)
        requires
            old(chan).wf(),
            old(chan).is_ready(),
        ensures
            final(chan).wf(),
            !final(chan).is_ready(),
            final(chan).message() is None,
            Some(r) == old(chan).message(),
    {
        chan.ready = false;
        let v = chan.message.take();
        v.unwrap()
    }
}

} // verus!
