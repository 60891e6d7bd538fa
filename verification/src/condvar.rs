//! A condition variable over one 32-bit generation counter, the word a
//! waiter parks on.
//!
//! Every notification bumps the counter (wrapping around at 2^32) and
//! then wakes one waiter or all of them. A waiter snapshots the counter
//! while still holding its lock, releases the lock, and parks only if
//! the counter still equals the snapshot — so a notification between
//! the release and the park is never lost. The park, the wake-ups and
//! the relocking stay with the thread plumbing around the library; the
//! counter arithmetic and the park-or-not decision are pinned down
//! here.

use vstd::prelude::*;

verus! {

/// The condition variable: one generation counter.
pub struct Condvar {
    counter: u32,
}

impl Condvar {
    /// The generation counter's current value.
    pub closed spec fn counter_spec(self) -> int {
        self.counter as int
    }

    /// A fresh condition variable at generation zero.
    pub fn new() -> (r: Self)
        ensures
            r.counter_spec() == 0,
    {
        Condvar { counter: 0 }
    }

    /// Bumps the generation, wrapping at 2^32; one parked waiter is
    /// owed a wake-up afterwards.
    pub fn notify_one(&mut self)
        ensures
            final(self).counter_spec() == (old(self).counter_spec() + 1) % 0x1_0000_0000,
    {
        self.counter = self.counter.wrapping_add(1);
    }

    /// Bumps the generation, wrapping at 2^32; every parked waiter is
    /// owed a wake-up afterwards.
    pub fn notify_all(&mut self)
        ensures
            final(self).counter_spec() == (old(self).counter_spec() + 1) % 0x1_0000_0000,
    {
        self.counter = self.counter.wrapping_add(1);
    }

    /// The waiter's snapshot of the generation, taken while its lock is
    /// still held.
    pub fn snapshot(&self) -> (r: u32)
        ensures
            r == self.counter_spec(),
    {
        self.counter
    }

    /// Whether a waiter that snapshotted `seen` still parks: only while
    /// no notification has moved the generation since.
    pub fn should_park(&self, seen: u32) -> (r: bool)
        ensures
            r <==> self.counter_spec() == seen,
    {
        self.counter == seen
    }
}

} // verus!
