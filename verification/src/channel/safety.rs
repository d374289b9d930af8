//! A single-use channel whose endpoints share ownership of its state.
//!
//! The real design hands the sender and the receiver each a
//! reference-counted handle to one shared block — no lifetimes couple them
//! to the channel.  Here the shared state is one explicit value the
//! endpoints operate on; each endpoint is an unforgeable value consumed by
//! its one operation, so a second send or a second receive cannot be
//! written.  Receiving before the message is ready is fatal in the real
//! channel, and ruled out by contract here; the receiver polls
//! [`Receiver::is_ready`] and parks between polls.

use core::marker::PhantomData;

use vstd::prelude::*;

verus! {

/// The state one handshake shares: storage for the value and a readiness
/// flag.
pub struct Channel<T> {
    message: Option<T>,
    ready: bool,
}

/// The sending endpoint; consumed by [`Sender::send`].
pub struct Sender<T> {
    no_forge: PhantomData<T>,
}

/// The receiving endpoint; consumed by [`Receiver::receive`].
pub struct Receiver<T> {
    no_forge: PhantomData<T>,
}

/// Create a channel: its shared state and the two endpoints of its one
/// handshake.
pub fn channel<T>() -> (r: (Channel<T>, Sender<T>, Receiver<T>))
    ensures
        r.0.wf(),
        !r.0.is_ready(),
        r.0.message() is None,
{
    (
        Channel { message: None, ready: false },
        Sender { no_forge: PhantomData },
        Receiver { no_forge: PhantomData },
    )
}

impl<T> Channel<T> {
    /// The in-flight message.
    pub closed spec fn message(self) -> Option<T> {
        self.message
    }

    /// Whether the message is written and may be received.
    pub closed spec fn is_ready(self) -> bool {
        self.ready
    }

    /// Readiness is only ever raised over a written message.
    pub open spec fn wf(self) -> bool {
        self.is_ready() ==> self.message() is Some
    }

    /// Tear the channel down.  A sent but unread message is surrendered for
    /// destruction — it is neither leaked nor destroyed twice.
    pub fn destroy(self) -> (r: Option<T>)
        requires
            self.wf(),
        ensures
            r == self.message(),
            self.is_ready() ==> r is Some,
    {
        self.message
    }
}

impl<T> Sender<T> {
    /// Write the message and raise the readiness flag.  The endpoint is
    /// consumed: this channel will carry no second value.  The state must
    /// be the fresh one this endpoint was created with.
    pub fn send(self, chan: &mut Channel<T>, msg: T)
        requires
            old(chan).wf(),
            !old(chan).is_ready(),
        ensures
            final(chan).wf(),
            final(chan).is_ready(),
            final(chan).message() == Some(msg),
    {
        chan.message = Some(msg);
        chan.ready = true;
    }
}

impl<T> Receiver<T> {
    /// Whether the message has been sent; the receiver polls this and
    /// parks between polls.
    pub fn is_ready(&self, chan: &Channel<T>) -> (r: bool)
        ensures
            r == chan.is_ready(),
    {
        chan.ready
    }

    /// Take the message out, lowering the readiness flag.  Receiving
    /// before the message is ready is a fatal misuse, so readiness is
    /// demanded here.  What was sent is exactly what comes out.
    pub fn receive(self, chan: &mut Channel<T>) -> (r: T)
        requires
            old(chan).wf(),
            old(chan).is_ready(),
        ensures
            final(chan).wf(),
            !final(chan).is_ready(),
            final(chan).message() is None,
            Some(r) == old(chan).message(),
    {
        chan.ready = false;
        let v = chan.message.take();
        v.unwrap()
    }
}

} // verus!
