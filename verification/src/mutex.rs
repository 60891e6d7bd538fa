//! A blocking mutex over one 32-bit state word, the word a thread can
//! park on: `0` unlocked, `1` locked with nobody waiting, `2` locked
//! with threads waiting.
//!
//! The word's transitions are what this module pins down: the fast-path
//! compare-and-swap from `0` to `1`, the slow path's spin/acquire/park
//! decision, the swap to `2` that both marks contention and takes the
//! lock when it happens to be free, and the release swap to `0` that
//! owes a wake-up exactly when the word said `2`. The guard owns the
//! protected value while the lock is held. Parking and waking
//! themselves put threads to sleep in the OS and stay with the thread
//! plumbing around the library.

use vstd::prelude::*;

verus! {

/// The mutex: the three-valued state word and the protected value,
/// present exactly while nobody holds the lock.
pub struct Mutex<T> {
    state: u32,
    value: Option<T>,
}

/// Exclusive access to the protected value; lives from acquisition to
/// release.
pub struct Guard<T> {
    value: T,
}

impl<T> View for Guard<T> {
    type V = T;

    closed spec fn view(&self) -> T {
        self.value
    }
}

impl<T> Guard<T> {
    /// Reads the protected value.
    pub fn get(&self) -> (v: &T)
        ensures
            *v == self@,
    {
        &self.value
    }

    /// Overwrites the protected value.
    pub fn set(&mut self, v: T)
        ensures
            final(self)@ == v,
    {
        self.value = v;
    }
}

/// What the contended slow path does next, after observing the state
/// word `state` having already spun `spin_count` times.
#[derive(Debug, PartialEq, Eq, Structural)]
pub enum ContendedStep {
    /// The lock is held but uncontended and the spin budget is not
    /// spent: spin once more, hoping for a quick release.
    Spin,
    /// The lock looks free: try the acquiring compare-and-swap.
    TryAcquire,
    /// Give up spinning: mark the word contended and park on it.
    Park,
}

/// The slow-path decision of a lock that found its fast path refused:
/// spin while the word is `1` and fewer than 100 spins are spent, try
/// to acquire the moment the word is `0`, otherwise park.
pub fn lock_contended_step(state: u32, spin_count: u32) -> (s: ContendedStep)
    ensures
        s == (if state == 1 && spin_count < 100 {
            ContendedStep::Spin
        } else if state == 0 {
            ContendedStep::TryAcquire
        } else {
            ContendedStep::Park
        }),
{
    if state == 1 && spin_count < 100 {
        ContendedStep::Spin
    } else if state == 0 {
        ContendedStep::TryAcquire
    } else {
        ContendedStep::Park
    }
}

impl<T> Mutex<T> {
    /// The state word: `0` unlocked, `1` locked, `2` locked and
    /// contended.
    pub closed spec fn state_spec(self) -> int {
        self.state as int
    }

    /// The value at rest in the lock; `None` exactly while it is out
    /// with a guard.
    pub closed spec fn stored(self) -> Option<T> {
        self.value
    }

    /// The word stays in `{0, 1, 2}` and agrees with the value: the
    /// value is home exactly while the lock is free.
    pub open spec fn wf(self) -> bool {
        &&& 0 <= self.state_spec() <= 2
        &&& (self.state_spec() == 0 <==> self.stored() is Some)
    }

    /// A new, unlocked mutex protecting `value`.
    pub fn new(value: T) -> (r: Self)
        ensures
            r.wf(),
            r.state_spec() == 0,
            r.stored() == Some(value),
    {
        Mutex { state: 0, value: Some(value) }
    }

    /// Acquires the lock: the fast-path compare-and-swap from `0` to
    /// `1`, which must find the word `0` — with one thread, a lock
    /// already held would be parked on forever.
    pub fn lock(&mut self) -> (g: Guard<T>)
        requires
            old(self).wf(),
            old(self).state_spec() == 0,
        ensures
            final(self).wf(),
            final(self).state_spec() == 1,
            g@ == old(self).stored()->0,
    {
        self.state = 1;
        let v = self.value.take();
        Guard { value: v.unwrap() }
    }

    /// The slow path's swap of the word to `2`: it always marks the
    /// lock contended, and acquires it exactly when the word was `0` —
    /// the caller parks when nothing comes back.
    pub fn swap_contended(&mut self) -> (g: Option<Guard<T>>)
        requires
            old(self).wf(),
        ensures
            final(self).wf(),
            final(self).state_spec() == 2,
            g is Some <==> old(self).state_spec() == 0,
            g is Some ==> g->0@ == old(self).stored()->0,
    {
        let was = self.state;
        self.state = 2;
        if was == 0 {
            let v = self.value.take();
            Some(Guard { value: v.unwrap() })
        } else {
            None
        }
    }

    /// Releases the lock: the swap of the word back to `0`. The value
    /// comes home; the caller owes one wake-up exactly when the word
    /// said `2`, and the result says so.
    pub fn unlock(&mut self, g: Guard<T>) -> (wake: bool)
        requires
            old(self).wf(),
            old(self).state_spec() >= 1,
        ensures
            final(self).wf(),
            final(self).state_spec() == 0,
            final(self).stored() == Some(g@),
            wake <==> old(self).state_spec() == 2,
    {
        let was = self.state;
        self.state = 0;
        self.value = Some(g.value);
        was == 2
    }
}

} // verus!
