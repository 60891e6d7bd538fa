//! A one-shot channel: one message slot and one "ready" flag. The
//! sender writes the slot and only then raises the flag; the receiver
//! may take the message only once the flag is up, and takes it at most
//! once because taking lowers the flag.
//!
//! Misuse — sending twice, or receiving before a message is ready — is
//! made unreachable by construction: `split` mints exactly one sender
//! and one receiver token, each usable once, and the operations demand
//! the states those tokens guarantee.

use vstd::prelude::*;

verus! {

/// The channel: the message slot and the ready flag.
pub struct Channel<T> {
    message: Option<T>,
    ready: bool,
}

/// The one licence to send; consumed by sending.
pub struct Sender;

/// The one licence to receive; consumed by receiving.
pub struct Receiver;

impl<T> Channel<T> {
    /// True once a message is in and not yet taken.
    pub closed spec fn ready_spec(self) -> bool {
        self.ready
    }

    /// The message in flight, if any.
    pub closed spec fn message_spec(self) -> Option<T> {
        self.message
    }

    /// The flag and the slot agree: a message sits in the slot exactly
    /// while the flag is up.
    pub open spec fn wf(self) -> bool {
        self.ready_spec() <==> self.message_spec() is Some
    }

    /// A new channel with nothing in flight.
    pub fn new() -> (r: Self)
        ensures
            r.wf(),
            !r.ready_spec(),
    {
        Channel { message: None, ready: false }
    }

    /// Resets the channel — dropping any message still in flight — and
    /// mints the single sender and receiver pair for one exchange.
    pub fn split(&mut self) -> (r: (Sender, Receiver))
        ensures
            final(self).wf(),
            !final(self).ready_spec(),
    {
        self.message = None;
        self.ready = false;
        (Sender, Receiver)
    }
}

impl Sender {
    /// Sends `message`: the slot is written first, the flag raised only
    /// after, so a raised flag always covers a complete message. The
    /// sender token is consumed; the channel must still await its one
    /// message.
    pub fn send<T>(self, channel: &mut Channel<T>, message: T)
        requires
            old(channel).wf(),
            !old(channel).ready_spec(),
        ensures
            final(channel).wf(),
            final(channel).ready_spec(),
            final(channel).message_spec() == Some(message),
    {
        channel.message = Some(message);
        channel.ready = true;
    }
}

impl Receiver {
    /// Whether the message has arrived.
    pub fn is_ready<T>(&self, channel: &Channel<T>) -> (r: bool)
        ensures
            r == channel.ready_spec(),
    {
        channel.ready
    }

    /// Takes the message. Receiving lowers the flag as it takes — the
    /// swap that makes a second take impossible — and may only be asked
    /// once the flag is up: asking earlier is the misuse the tokens and
    /// this demand rule out.
    pub fn receive<T>(self, channel: &mut Channel<T>) -> (r: T)
        requires
            old(channel).wf(),
            old(channel).ready_spec(),
        ensures
            final(channel).wf(),
            !final(channel).ready_spec(),
            r == old(channel).message_spec()->0,
    {
        channel.ready = false;
        let m = channel.message.take();
        m.unwrap()
    }
}

} // verus!
