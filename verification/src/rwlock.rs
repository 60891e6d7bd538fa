//! A reader/writer lock over one 32-bit state word: the number of
//! active readers, with the reserved sentinel value `u32::MAX` meaning
//! "write-locked" and `u32::MAX - 1` ruled out so the count cannot run
//! into the sentinel.
//!
//! Readers enter by the compare-and-swap that raises the count by one;
//! a writer enters by the compare-and-swap from `0` straight to the
//! sentinel and owns the protected value through its guard. The last
//! reader leaving owes one wake-up (a waiting writer); a writer leaving
//! owes a wake-up to everybody. Parking and waking stay with the
//! thread plumbing around the library.

use vstd::prelude::*;

verus! {

/// The lock: the reader-count state word and the protected value,
/// present except while a writer holds it.
pub struct RwLock<T> {
    state: u32,
    value: Option<T>,
}

/// Proof of one admitted reader; handed back when the reader leaves.
pub struct ReadGuard;

/// Exclusive access of the one admitted writer.
pub struct WriteGuard<T> {
    value: T,
}

impl<T> View for WriteGuard<T> {
    type V = T;

    closed spec fn view(&self) -> T {
        self.value
    }
}

impl<T> WriteGuard<T> {
    /// Reads the protected value.
    pub fn get(&self) -> (v: &T)
        ensures
            *v == self@,
    {
        &self.value
    }

    /// Overwrites the protected value.
    pub fn set(&mut self, v: T)
        ensures
            final(self)@ == v,
    {
        self.value = v;
    }
}

/// What a reader does next after observing the state word: try the
/// raising compare-and-swap, or park until the writer leaves.
#[derive(Debug, PartialEq, Eq, Structural)]
pub enum ReadStep {
    TryIncrement,
    Wait,
}

/// The reader's loop decision. The word `u32::MAX - 1` would overflow
/// the count into the write-locked sentinel and is refused to callers.
pub fn read_step(state: u32) -> (s: ReadStep)
    requires
        state != u32::MAX - 1,
    ensures
        s == (if state == u32::MAX {
            ReadStep::Wait
        } else {
            ReadStep::TryIncrement
        }),
{
    if state == u32::MAX {
        ReadStep::Wait
    } else {
        ReadStep::TryIncrement
    }
}

impl<T> RwLock<T> {
    /// The state word: a reader count, or `u32::MAX` for a writer.
    pub closed spec fn state_spec(self) -> int {
        self.state as int
    }

    /// True while a writer holds the lock.
    pub open spec fn write_locked(self) -> bool {
        self.state_spec() == u32::MAX as int
    }

    /// The value at rest in the lock; `None` exactly while a writer has
    /// it out.
    pub closed spec fn stored(self) -> Option<T> {
        self.value
    }

    /// The word and the value agree: the value is gone exactly while
    /// the word shows the writer sentinel, and the reader count never
    /// touches the sentinel's neighbour.
    pub open spec fn wf(self) -> bool {
        &&& (self.write_locked() <==> self.stored() is None)
        &&& self.state_spec() != u32::MAX as int - 1
    }

    /// A new, unlocked lock protecting `value`.
    pub fn new(value: T) -> (r: Self)
        ensures
            r.wf(),
            r.state_spec() == 0,
            r.stored() == Some(value),
    {
        RwLock { state: 0, value: Some(value) }
    }

    /// Admits one more reader: the compare-and-swap that raises the
    /// count, which must find no writer — a reader would otherwise park
    /// — and refuses the count that would run into the sentinel.
    pub fn read(&mut self) -> (g: ReadGuard)
        requires
            old(self).wf(),
            !old(self).write_locked(),
            old(self).state_spec() + 1 < u32::MAX as int - 1,
        ensures
            final(self).wf(),
            final(self).state_spec() == old(self).state_spec() + 1,
            final(self).stored() == old(self).stored(),
    {
        self.state = self.state + 1;
        ReadGuard
    }

    /// Reads the protected value; any reader may, while no writer holds
    /// the lock.
    pub fn get(&self) -> (v: &T)
        requires
            self.wf(),
            !self.write_locked(),
        ensures
            *v == self.stored()->0,
    {
        self.value.as_ref().unwrap()
    }

    /// Lets one reader go: the decrement of the count. The last reader
    /// out owes one wake-up — a waiting writer's chance — and the
    /// result says so.
    pub fn read_unlock(&mut self, g: ReadGuard) -> (wake: bool)
        requires
            old(self).wf(),
            1 <= old(self).state_spec(),
            !old(self).write_locked(),
        ensures
            final(self).wf(),
            final(self).state_spec() == old(self).state_spec() - 1,
            final(self).stored() == old(self).stored(),
            wake <==> old(self).state_spec() == 1,
    {
        let was = self.state;
        self.state = self.state - 1;
        was == 1
    }

    /// Admits the one writer: the compare-and-swap from `0` straight to
    /// the sentinel, which must find the lock idle — the writer would
    /// otherwise park. The protected value moves into the guard.
    pub fn write(&mut self) -> (g: WriteGuard<T>)
        requires
            old(self).wf(),
            old(self).state_spec() == 0,
        ensures
            final(self).wf(),
            final(self).write_locked(),
            g@ == old(self).stored()->0,
    {
        self.state = u32::MAX;
        let v = self.value.take();
        WriteGuard { value: v.unwrap() }
    }

    /// Lets the writer go: the word drops to `0`, the value comes home,
    /// and the caller owes a wake-up to all parked readers and writers.
    pub fn write_unlock(&mut self, g: WriteGuard<T>)
        requires
            old(self).wf(),
            old(self).write_locked(),
        ensures
            final(self).wf(),
            final(self).state_spec() == 0,
            final(self).stored() == Some(g@),
    {
        self.state = 0;
        self.value = Some(g.value);
    }
}

} // verus!
