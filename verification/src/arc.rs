//! A reference-counted shared-ownership cell: the one shared
//! allocation behind all handles to a value, carrying the count of
//! handles alive and the data itself.
//!
//! The count's transitions are the protocol: a new cell starts at one;
//! every cloned handle raises it by one; every dropped handle lowers it
//! by one, and the handle that takes it to zero frees the allocation —
//! exactly once. Exclusive mutable access is granted only while the
//! count is observably one, when no other handle can be reading.

use vstd::prelude::*;

verus! {

/// The shared allocation: the handle count and the data it guards.
pub struct Arc<T> {
    ref_count: usize,
    data: T,
}

impl<T> Arc<T> {
    /// How many handles are alive.
    pub closed spec fn count_spec(self) -> int {
        self.ref_count as int
    }

    /// The shared data.
    pub closed spec fn data_spec(self) -> T {
        self.data
    }

    /// A fresh allocation with its first handle.
    pub fn new(data: T) -> (r: Self)
        ensures
            r.count_spec() == 1,
            r.data_spec() == data,
    {
        Arc { ref_count: 1, data }
    }

    /// Exclusive mutable access, granted exactly while this is the only
    /// handle alive; with more handles out, nothing is granted and the
    /// cell is untouched.
    pub fn get_mut(arc: &mut Self) -> (r: Option<&mut T>)
        ensures
            match r {
                Some(m) => {
                    &&& old(arc).count_spec() == 1
                    &&& *m == old(arc).data_spec()
                    &&& final(arc).count_spec() == 1
                    &&& final(arc).data_spec() == *final(m)
                },
                None => {
                    &&& old(arc).count_spec() != 1
                    &&& *final(arc) == *old(arc)
                },
            },
    {
        if arc.ref_count == 1 {
            Some(&mut arc.data)
        } else {
            None
        }
    }

    /// Reads the shared data; any handle may.
    pub fn get(&self) -> (v: &T)
        ensures
            *v == self.data_spec(),
    {
        &self.data
    }

    /// Records one more handle: the increment a cloned handle performs.
    pub fn retain(&mut self)
        requires
            old(self).count_spec() < usize::MAX,
        ensures
            final(self).count_spec() == old(self).count_spec() + 1,
            final(self).data_spec() == old(self).data_spec(),
    {
        self.ref_count = self.ref_count + 1;
    }

    /// Records one handle gone: the decrement a dropped handle
    /// performs. True exactly when that was the last handle — the one
    /// moment the allocation is to be freed.
    pub fn release(&mut self) -> (free: bool)
        requires
            old(self).count_spec() >= 1,
        ensures
            final(self).count_spec() == old(self).count_spec() - 1,
            final(self).data_spec() == old(self).data_spec(),
            free <==> old(self).count_spec() == 1,
    {
        self.ref_count = self.ref_count - 1;
        self.ref_count == 0
    }
}

} // verus!
