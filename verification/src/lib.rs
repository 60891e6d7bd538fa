//! A toolkit of inter-thread communication primitives: a bounded
//! single-producer/single-consumer ring buffer, an unbounded
//! multi-producer/multi-consumer queue, and the accessory blocking
//! primitives (mutex, reader/writer lock, spinlock, condition variable,
//! channels, and a reference-counted ownership cell) that callers layer
//! around them.
//!
//! What is verified is the logic of these primitives — the cursor
//! protocol of the ring, the reachability and reclamation accounting of
//! the linked queue, the state-word transitions of the locks — each as
//! a state machine whose every step carries a contract. The atomic
//! words, the OS parking and waking, and the threads that run these
//! steps in parallel cannot live inside the verified boundary; they
//! stand in the thin layer around the library, which does nothing but
//! run the decisions stated and proved here.

pub mod arc;
pub mod channel;
pub mod condvar;
pub mod lfqueue;
pub mod mutex;
pub mod one_shot_ch;
pub mod rwlock;
pub mod spin_lock;

use vstd::prelude::*;

verus! {

/// Sum of two counters, as used by callers that aggregate per-thread tallies.
pub fn add(left: u64, right: u64) -> (r: u64)
    requires
        left + right <= u64::MAX,
    ensures
        r == left + right,
{
    left + right
}

} // verus!
