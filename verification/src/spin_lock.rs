//! A spinlock: mutual exclusion by pure busy-waiting on one boolean
//! state word, intended only for very short critical sections.
//!
//! Acquisition models the compare-and-swap from "unlocked" to "locked";
//! the guard owns the protected value for as long as it lives, which is
//! what makes a data race on the value impossible, and handing the
//! guard back releases the lock. The busy-wait loop that retries a
//! failed compare-and-swap lives with the thread plumbing around the
//! library, not here: a single caller that already holds the lock would
//! spin forever.

use vstd::prelude::*;

verus! {

/// The lock: one boolean state word plus the protected value, present
/// exactly while nobody holds the lock.
pub struct SpinLock<T> {
    locked: bool,
    value: Option<T>,
}

/// Exclusive access to the protected value; lives from a successful
/// acquisition until the lock is released.
pub struct Guard<T> {
    value: T,
}

impl<T> View for Guard<T> {
    type V = T;

    closed spec fn view(&self) -> T {
        self.value
    }
}

impl<T> Guard<T> {
    /// Reads the protected value.
    pub fn get(&self) -> (v: &T)
        ensures
            *v == self@,
    {
        &self.value
    }

    /// Overwrites the protected value.
    pub fn set(&mut self, v: T)
        ensures
            final(self)@ == v,
    {
        self.value = v;
    }

    /// Consumes the guard without releasing: the protected value leaves
    /// the lock for good.
    pub fn into_inner(self) -> (v: T)
        ensures
            v == self@,
    {
        self.value
    }
}

impl<T> SpinLock<T> {
    /// True while some guard is out.
    pub closed spec fn locked_spec(self) -> bool {
        self.locked
    }

    /// The value at rest in the lock; `None` exactly while it is out
    /// with a guard.
    pub closed spec fn stored(self) -> Option<T> {
        self.value
    }

    /// The state word and the value agree: the value is home exactly
    /// while the lock is free.
    pub open spec fn wf(self) -> bool {
        self.locked_spec() <==> self.stored() is None
    }

    /// A new, unlocked lock protecting `value`.
    pub fn new(value: T) -> (r: Self)
        ensures
            r.wf(),
            !r.locked_spec(),
            r.stored() == Some(value),
    {
        SpinLock { locked: false, value: Some(value) }
    }

    /// Acquires the lock: the compare-and-swap from free to held, which
    /// must find the lock free — with one thread, a lock already held
    /// would be spun on forever.
    pub fn lock(&mut self) -> (g: Guard<T>)
        requires
            old(self).wf(),
            !old(self).locked_spec(),
        ensures
            final(self).wf(),
            final(self).locked_spec(),
            g@ == old(self).stored()->0,
    {
        self.locked = true;
        let v = self.value.take();
        Guard { value: v.unwrap() }
    }

    /// Releases the lock: the value comes home and the state word is
    /// stored back to free.
    pub fn unlock(&mut self, g: Guard<T>)
        requires
            old(self).wf(),
            old(self).locked_spec(),
        ensures
            final(self).wf(),
            !final(self).locked_spec(),
            final(self).stored() == Some(g@),
    {
        self.value = Some(g.into_inner());
        self.locked = false;
    }
}

} // verus!
