//! A blocking many-to-many channel: a queue behind a mutual-exclusion
//! lock, with a condition variable signalling "an item is ready".
//!
//! Exclusive access — here the `&mut` borrow, in the threaded setting
//! the lock around the queue — makes each operation atomic. `send`
//! appends and then owes one wake-up on the condition variable;
//! `receive` takes from the back of the queue, newest first, and a
//! caller finding the channel empty parks on the condition variable and
//! retries, which is why `receive` itself demands a message and
//! `try_receive` carries the loop's decision.

use vstd::prelude::*;

verus! {

/// The channel: the queue of messages not yet received.
pub struct Channel<T> {
    queue: std::collections::VecDeque<T>,
}

impl<T> View for Channel<T> {
    type V = Seq<T>;

    /// The pending messages, oldest first.
    closed spec fn view(&self) -> Seq<T> {
        self.queue@
    }
}

impl<T> Channel<T> {
    /// A new, empty channel.
    pub fn new() -> (r: Self)
        ensures
            r@ == Seq::<T>::empty(),
    {
        Channel { queue: std::collections::VecDeque::new() }
    }

    /// Appends `message`; the caller then owes one wake-up to a
    /// receiver parked on the channel's condition variable.
    pub fn send(&mut self, message: T)
        ensures
            final(self)@ == old(self)@.push(message),
    {
        self.queue.push_back(message);
    }

    /// Takes the newest pending message; a caller may only ask once a
    /// message is pending — the threaded wrapper parks and retries via
    /// `try_receive` until one is.
    pub fn receive(&mut self) -> (r: T)
        requires
            old(self)@.len() > 0,
        ensures
            r == old(self)@.last(),
            final(self)@ == old(self)@.drop_last(),
    {
        let r = self.queue.pop_back();
        r.unwrap()
    }

    /// One round of the receive loop: the newest pending message, or
    /// `None` — the caller's cue to park until a send's wake-up.
    pub fn try_receive(&mut self) -> (r: Option<T>)
        ensures
            match r {
                Some(v) => old(self)@.len() > 0 && v == old(self)@.last() && final(self)@ == old(
                    self,
                )@.drop_last(),
                None => old(self)@.len() == 0 && final(self)@ == old(self)@,
            },
    {
        self.queue.pop_back()
    }
}

} // verus!
