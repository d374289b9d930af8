//! A single-use channel with an explicit four-state tag.
//!
//! The tag only ever moves forward: `Empty` → `Writing` → `Ready` →
//! `Reading`.  Sending on a channel that is not `Empty` and receiving from
//! one that is not `Ready` are programmer errors the real channel makes
//! fatal; here they are ruled out by contract, so a second send or a
//! premature receive cannot even be written.  A channel destroyed while a
//! written value sits unread still surrenders that value for destruction —
//! nothing is leaked and nothing is destroyed twice.

use vstd::prelude::*;

verus! {

/// Where a single-use channel stands in its life.
#[derive(PartialEq, Eq, Structural)]
pub enum State {
    /// Nothing sent yet: a send may begin.
    Empty,
    /// A send is writing the message.
    Writing,
    /// The message is written and may be received.
    Ready,
    /// The message has been taken; the channel is spent.
    Reading,
}

/// Where a tag stands in the forward order of the channel's life.
pub open spec fn state_rank(s: State) -> int {
    match s {
        State::Empty => 0,
        State::Writing => 1,
        State::Ready => 2,
        State::Reading => 3,
    }
}

/// Storage for one in-flight value plus the state tag.
pub struct Channel<T> {
    msg: Option<T>,
    state: State,
}

impl<T> Channel<T> {
    /// The state tag.
    pub closed spec fn state(self) -> State {
        self.state
    }

    /// The in-flight message, present exactly while the tag is `Ready`.
    pub closed spec fn message(self) -> Option<T> {
        self.msg
    }

    /// A message is stored exactly while the channel is `Ready`.
    pub open spec fn wf(self) -> bool {
        self.message() is Some <==> self.state() is Ready
    }

    /// A fresh channel is `Empty`.
    pub fn new() -> (c: Channel<T>)
        ensures
            c.wf(),
            c.state() is Empty,
    {
        Channel { msg: None, state: State::Empty }
    }

    /// Send the one value this channel will ever carry.  Sending on a
    /// channel that is not `Empty` is a fatal misuse, so the tag must be
    /// `Empty` here; the tag passes through `Writing` and rests at `Ready`.
    pub fn send(&mut self, val: T)
        requires
            old(self).wf(),
            old(self).state() is Empty,
        ensures
            final(self).wf(),
            final(self).state() is Ready,
            final(self).message() == Some(val),
            state_rank(final(self).state()) > state_rank(old(self).state()),
    {
        self.state = State::Writing;
        self.msg = Some(val);
        self.state = State::Ready;
    }

    /// Whether the message is written and may be received.
    pub fn is_ready(&self) -> (r: bool)
        ensures
            r == (self.state() is Ready),
    {
        self.state == State::Ready
    }

    /// Take the value out.  Receiving from a channel that is not `Ready` is
    /// a fatal misuse, so the tag must be `Ready` here; afterwards the
    /// channel is spent, and what was sent is exactly what comes out.
    pub fn receive(&mut self) -> (r: T)
        requires
            old(self).wf(),
            old(self).state() is Ready,
        ensures
            final(self).wf(),
            final(self).state() is Reading,
            final(self).message() is None,
            Some(r) == old(self).message(),
            state_rank(final(self).state()) > state_rank(old(self).state()),
    {
        self.state = State::Reading;
        let v = self.msg.take();
        v.unwrap()
    }

    /// Tear the channel down.  A written but unread message is surrendered
    /// for destruction — exactly one value comes out of a channel that was
    /// sent to, whether through `receive` or through its destruction.
    pub fn destroy(self) -> (r: Option<T>)
        requires
            self.wf(),
        ensures
            r == self.message(),
            r is Some <==> self.state() is Ready,
    {
        self.msg
    }
}

} // verus!
