//! Bounded single-producer/single-consumer ring buffer.
//!
//! A fixed-capacity slot array is driven by two monotonically increasing
//! 64-bit cursors: `head`, advanced only by the producer, and `tail`,
//! advanced only by the consumer. A cursor indexes into the array modulo
//! the capacity. A slot holds a value exactly when its logical position
//! lies in the half-open window `[tail, head)`, so `head - tail` is the
//! number of queued values and never exceeds the capacity.
//!
//! Each side keeps a private copy of the other side's cursor
//! (`cache_tail` on the producer, `cache_head` on the consumer) and
//! rereads the shared cursor only when the cached view suggests the
//! buffer is full or empty. Zero-copy transfers go through the scoped
//! accessors [`Pusher`] and [`Popper`]: reserving a slot is separate from
//! publishing it, so a published `head` always covers a fully written
//! slot, and a slot is consumed at most once.
//!
//! `new` hands the two handles and the ring back separately, and each
//! operation borrows the ring it drives. In the threaded setting the
//! ring sits in one shared allocation and each side touches only its
//! own cursor and the slots its window covers; here that exclusive
//! access is the `&mut` borrow a caller lends each operation, and
//! `wf_for` is the tie between a handle and the ring it belongs to.

use vstd::prelude::*;

verus! {

/// The state shared by the producer and consumer of one bounded queue:
/// the slot array, the fixed capacity, and the two published cursors.
pub struct Shared<T> {
    slots: Vec<Option<T>>,
    capacity: usize,
    head: u64,
    tail: u64,
}

impl<T> Shared<T> {
    /// Capacity fixed at construction; always positive.
    pub closed spec fn cap(self) -> int {
        self.capacity as int
    }

    /// The producer's published cursor: total number of values ever published.
    pub closed spec fn head_cursor(self) -> int {
        self.head as int
    }

    /// The consumer's published cursor: total number of values ever consumed.
    pub closed spec fn tail_cursor(self) -> int {
        self.tail as int
    }

    /// Physical slot holding the value `j` places past the consumer cursor.
    spec fn slot_at(self, j: int) -> int {
        (self.tail + j) % (self.capacity as int)
    }

    /// The ring invariant: cursors are ordered and at most `capacity`
    /// apart, and a slot is occupied exactly when its logical position
    /// lies in the window `[tail, head)`.
    pub closed spec fn wf(self) -> bool {
        &&& self.capacity > 0
        &&& self.slots.len() == self.capacity
        &&& self.tail <= self.head
        &&& self.head - self.tail <= self.capacity
        &&& forall|j: int|
            0 <= j < self.capacity ==> ((self.slots[#[trigger] self.slot_at(j)] is Some) <==> j
                < self.head - self.tail)
    }

    /// Capacity of the queue.
    pub fn capacity(&self) -> (c: usize)
        ensures
            c == self.cap(),
    {
        self.capacity
    }

    /// Number of values currently queued.
    pub fn len(&self) -> (n: usize)
        requires
            self.wf(),
        ensures
            n == self@.len(),
    {
        (self.head - self.tail) as usize
    }
}

impl<T> View for Shared<T> {
    type V = Seq<T>;

    /// The queued values, oldest first.
    closed spec fn view(&self) -> Seq<T> {
        Seq::new((self.head - self.tail) as nat, |j: int| self.slots[self.slot_at(j)]->0)
    }
}

/// The bounded queue invariant: the cursors never cross and never drift
/// more than the capacity apart, and their distance is exactly the number
/// of queued values.
pub proof fn lemma_cursor_bounds<T>(s: Shared<T>)
    requires
        s.wf(),
    ensures
        0 <= s.head_cursor() - s.tail_cursor() <= s.cap(),
        s@.len() == s.head_cursor() - s.tail_cursor(),
{
}

/// The producer handle: its own cursor plus a cached copy of the
/// consumer's, reread only when the buffer looks full.
pub struct Producer {
    head: u64,
    cache_tail: u64,
}

impl Producer {
    /// The producer's private cursor; always equal to the published `head`.
    pub closed spec fn head_cursor(self) -> int {
        self.head as int
    }

    /// The producer's stale view of the consumer's cursor.
    pub closed spec fn cache_tail_cursor(self) -> int {
        self.cache_tail as int
    }

    /// The producer is in step with `shared`: its cursor matches the
    /// published head, and its cached tail is a (possibly stale) lower
    /// bound on the published tail, close enough that the distance to
    /// `head` never exceeds the capacity.
    pub open spec fn wf_for<T>(self, shared: Shared<T>) -> bool {
        &&& shared.wf()
        &&& self.head_cursor() == shared.head_cursor()
        &&& 0 <= self.cache_tail_cursor() <= shared.tail_cursor()
        &&& self.head_cursor() - self.cache_tail_cursor() <= shared.cap()
    }
}

/// The consumer handle: its own cursor plus a cached copy of the
/// producer's, reread only when the buffer looks empty.
pub struct Consumer {
    tail: u64,
    cache_head: u64,
}

impl Consumer {
    /// The consumer's private cursor; always equal to the published `tail`.
    pub closed spec fn tail_cursor(self) -> int {
        self.tail as int
    }

    /// The consumer's stale view of the producer's cursor.
    pub closed spec fn cache_head_cursor(self) -> int {
        self.cache_head as int
    }

    /// The consumer is in step with `shared`: its cursor matches the
    /// published tail, and its cached head is a (possibly stale) bound
    /// between its own cursor and the published head.
    pub open spec fn wf_for<T>(self, shared: Shared<T>) -> bool {
        &&& shared.wf()
        &&& self.tail_cursor() == shared.tail_cursor()
        &&& self.tail_cursor() <= self.cache_head_cursor() <= shared.head_cursor()
    }
}

/// Failure value of a push against a full buffer; the queue is untouched.
#[derive(Debug, PartialEq, Eq)]
pub struct FullError;

/// A reserved, not yet published, slot of one bounded queue. Writing
/// through it fills the slot and only then advances and publishes the
/// producer cursor, so the consumer can never observe a half-written
/// value.
pub struct Pusher {
    slot: usize,
}

impl Pusher {
    /// The physical index of the reserved slot.
    pub closed spec fn slot_spec(self) -> int {
        self.slot as int
    }

    /// Writes `value` into the reserved slot, then advances the producer
    /// cursor and publishes it, appending `value` to the queue.
    pub fn write<T>(self, producer: &mut Producer, shared: &mut Shared<T>, value: T)
        requires
            old(producer).wf_for(*old(shared)),
            old(producer).head_cursor() - old(producer).cache_tail_cursor() < old(shared).cap(),
            self.slot_spec() == old(producer).head_cursor() % old(shared).cap(),
            old(producer).head_cursor() < u64::MAX,
        ensures
            final(producer).wf_for(*final(shared)),
            final(shared)@ == old(shared)@.push(value),
            final(shared).cap() == old(shared).cap(),
            final(shared).head_cursor() == old(shared).head_cursor() + 1,
            final(shared).tail_cursor() == old(shared).tail_cursor(),
            final(producer).head_cursor() == old(producer).head_cursor() + 1,
            final(producer).cache_tail_cursor() == old(producer).cache_tail_cursor(),
    {
        proof {
            assert(old(shared)@.len() < old(shared).cap());
        }
        shared.slots[self.slot] = Some(value);
        producer.head = producer.head + 1;
        shared.head = producer.head;
        proof {
            let cap = shared.capacity as int;
            let tail = shared.tail as int;
            let hl = old(shared).head - old(shared).tail;
            assert(shared.slot_at(hl) == self.slot_spec());
            assert forall|j: int| 0 <= j < cap && j != hl implies shared.slots[
                #[trigger] shared.slot_at(j)] == old(shared).slots[old(shared).slot_at(j)] by {
                assert(shared.slot_at(j) == old(shared).slot_at(j));
                if j < hl {
                    lemma_mod_window_distinct(tail, j, hl, cap);
                } else {
                    lemma_mod_window_distinct(tail, hl, j, cap);
                }
            }
            assert forall|j: int| 0 <= j < cap implies ((shared.slots[
                #[trigger] shared.slot_at(j)] is Some) <==> j < shared.head - shared.tail) by {
                assert(shared.slot_at(j) == old(shared).slot_at(j));
                assert((old(shared).slots[old(shared).slot_at(j)] is Some) <==> j < hl);
            }
            assert(shared.wf());
            assert forall|j: int| 0 <= j < hl + 1 implies shared.slots[shared.slot_at(j)]->0
                == old(shared)@.push(value)[j] by {
                assert(shared.slot_at(j) == old(shared).slot_at(j));
            }
            assert(shared@ =~= old(shared)@.push(value));
        }
    }
}

/// Two logical positions less than one capacity apart land in distinct
/// physical slots of the ring.
proof fn lemma_mod_window_distinct(t: int, j1: int, j2: int, cap: int)
    requires
        cap > 0,
        0 <= t,
        0 <= j1 < j2,
        j2 - j1 < cap,
    ensures
        (t + j1) % cap != (t + j2) % cap,
{
    let a = t + j1;
    let b = t + j2;
    vstd::arithmetic::div_mod::lemma_fundamental_div_mod(a, cap);
    vstd::arithmetic::div_mod::lemma_fundamental_div_mod(b, cap);
    if a % cap == b % cap {
        let d = b / cap - a / cap;
        assert(b - a == cap * d) by (nonlinear_arith)
            requires
                a == cap * (a / cap) + a % cap,
                b == cap * (b / cap) + b % cap,
                a % cap == b % cap,
                d == b / cap - a / cap,
        ;
        if d >= 1 {
            vstd::arithmetic::mul::lemma_mul_inequality(1, d, cap);
        } else {
            vstd::arithmetic::mul::lemma_mul_inequality(d, 0, cap);
        }
    }
}

impl Producer {
    /// Reserves the next free slot, rereading the consumer's cursor only
    /// when the cached copy suggests the buffer is full. Fails, leaving
    /// the queue untouched, exactly when the buffer really is full.
    pub fn push<T>(&mut self, shared: &Shared<T>) -> (r: Result<Pusher, FullError>)
        requires
            old(self).wf_for(*shared),
        ensures
            final(self).wf_for(*shared),
            final(self).head_cursor() == old(self).head_cursor(),
            match r {
                Ok(p) => {
                    &&& shared@.len() < shared.cap()
                    &&& final(self).head_cursor() - final(self).cache_tail_cursor()
                        < shared.cap()
                    &&& p.slot_spec() == final(self).head_cursor() % shared.cap()
                },
                Err(_) => shared@.len() == shared.cap(),
            },
    {
        if self.head - self.cache_tail == shared.capacity as u64 {
            self.cache_tail = shared.tail;
            if self.head - self.cache_tail == shared.capacity as u64 {
                return Err(FullError);
            }
        }
        let index = (self.head % (shared.capacity as u64)) as usize;
        Ok(Pusher { slot: index })
    }
}

/// A claimed, not yet consumed, slot of one bounded queue. The value can
/// be read in place; releasing the accessor removes it and only then
/// advances and publishes the consumer cursor, so a slot is consumed at
/// most once and freed for the producer only after the value left it.
pub struct Popper {
    slot: usize,
}

impl Popper {
    /// The physical index of the claimed slot.
    pub closed spec fn slot_spec(self) -> int {
        self.slot as int
    }

    /// Reads the claimed value in place, without consuming it.
    pub fn read<'a, T>(&self, shared: &'a Shared<T>) -> (v: &'a T)
        requires
            shared.wf(),
            shared@.len() > 0,
            self.slot_spec() == shared.tail_cursor() % shared.cap(),
        ensures
            *v == shared@[0],
    {
        proof {
            assert(shared.slot_at(0) == self.slot_spec());
            assert(shared.slots[shared.slot_at(0)] is Some);
        }
        shared.slots[self.slot].as_ref().unwrap()
    }

    /// Takes the claimed value out of its slot, then advances the
    /// consumer cursor and publishes it, removing the oldest queued
    /// value.
    pub fn release<T>(self, consumer: &mut Consumer, shared: &mut Shared<T>) -> (v: T)
        requires
            old(consumer).wf_for(*old(shared)),
            old(shared)@.len() > 0,
            old(consumer).tail_cursor() < old(consumer).cache_head_cursor(),
            self.slot_spec() == old(consumer).tail_cursor() % old(shared).cap(),
        ensures
            final(consumer).wf_for(*final(shared)),
            v == old(shared)@[0],
            final(shared)@ == old(shared)@.drop_first(),
            final(shared).cap() == old(shared).cap(),
            final(shared).head_cursor() == old(shared).head_cursor(),
            final(shared).tail_cursor() == old(shared).tail_cursor() + 1,
            final(consumer).tail_cursor() == old(consumer).tail_cursor() + 1,
            final(consumer).cache_head_cursor() == old(consumer).cache_head_cursor(),
    {
        proof {
            assert(old(shared).slot_at(0) == self.slot_spec());
            assert(old(shared).slots[old(shared).slot_at(0)] is Some);
        }
        let taken = shared.slots[self.slot].take();
        consumer.tail = consumer.tail + 1;
        shared.tail = consumer.tail;
        proof {
            let cap = shared.capacity as int;
            let t_old = old(shared).tail as int;
            let len_old = old(shared).head - old(shared).tail;
            assert forall|j: int| 1 <= j < cap implies #[trigger] old(shared).slot_at(j) != old(
                shared,
            ).slot_at(0) by {
                lemma_mod_window_distinct(t_old, 0, j, cap);
            }
            assert forall|j: int| 0 <= j < cap implies ((shared.slots[
                #[trigger] shared.slot_at(j)] is Some) <==> j < shared.head - shared.tail) by {
                if j < cap - 1 {
                    assert(shared.slot_at(j) == old(shared).slot_at(j + 1));
                    assert((old(shared).slots[old(shared).slot_at(j + 1)] is Some) <==> j + 1
                        < len_old);
                } else {
                    vstd::arithmetic::div_mod::lemma_mod_add_multiples_vanish(t_old, cap);
                    assert(shared.slot_at(j) == old(shared).slot_at(0));
                }
            }
            assert(shared.wf());
            assert forall|j: int| 0 <= j < len_old - 1 implies shared.slots[shared.slot_at(j)]->0
                == old(shared)@.drop_first()[j] by {
                assert(shared.slot_at(j) == old(shared).slot_at(j + 1));
            }
            assert(shared@ =~= old(shared)@.drop_first());
        }
        taken.unwrap()
    }
}

impl Consumer {
    /// Claims the oldest queued value, rereading the producer's cursor
    /// only when the cached copy suggests the buffer is empty. Returns
    /// `None`, leaving the queue untouched, exactly when the buffer
    /// really is empty.
    pub fn pop<T>(&mut self, shared: &Shared<T>) -> (r: Option<Popper>)
        requires
            old(self).wf_for(*shared),
        ensures
            final(self).wf_for(*shared),
            final(self).tail_cursor() == old(self).tail_cursor(),
            match r {
                Some(p) => {
                    &&& shared@.len() > 0
                    &&& final(self).tail_cursor() < final(self).cache_head_cursor()
                    &&& p.slot_spec() == final(self).tail_cursor() % shared.cap()
                },
                None => shared@.len() == 0,
            },
    {
        if self.tail == self.cache_head {
            self.cache_head = shared.head;
            if self.tail == self.cache_head {
                return None;
            }
        }
        let index = (self.tail % (shared.capacity as u64)) as usize;
        Some(Popper { slot: index })
    }
}

impl Producer {
    /// Pushes `value` in one step: reserve, write, publish. When the
    /// buffer is full the value comes back unchanged and the queue is
    /// untouched.
    pub fn push_value<T>(&mut self, shared: &mut Shared<T>, value: T) -> (r: Result<(), T>)
        requires
            old(self).wf_for(*old(shared)),
            old(self).head_cursor() < u64::MAX,
        ensures
            final(self).wf_for(*final(shared)),
            final(shared).cap() == old(shared).cap(),
            final(shared).tail_cursor() == old(shared).tail_cursor(),
            match r {
                Ok(_) => {
                    &&& old(shared)@.len() < old(shared).cap()
                    &&& final(shared)@ == old(shared)@.push(value)
                    &&& final(shared).head_cursor() == old(shared).head_cursor() + 1
                },
                Err(v) => {
                    &&& v == value
                    &&& old(shared)@.len() == old(shared).cap()
                    &&& *final(shared) == *old(shared)
                },
            },
    {
        match self.push(shared) {
            Ok(pusher) => {
                pusher.write(self, shared, value);
                Ok(())
            },
            Err(_) => Err(value),
        }
    }
}

impl Consumer {
    /// Pops the oldest value in one step: claim, take, publish. Returns
    /// `None`, with the queue untouched, exactly when the buffer is
    /// empty.
    pub fn pop_value<T>(&mut self, shared: &mut Shared<T>) -> (r: Option<T>)
        requires
            old(self).wf_for(*old(shared)),
        ensures
            final(self).wf_for(*final(shared)),
            final(shared).cap() == old(shared).cap(),
            final(shared).head_cursor() == old(shared).head_cursor(),
            match r {
                Some(v) => {
                    &&& old(shared)@.len() > 0
                    &&& v == old(shared)@[0]
                    &&& final(shared)@ == old(shared)@.drop_first()
                    &&& final(shared).tail_cursor() == old(shared).tail_cursor() + 1
                },
                None => {
                    &&& old(shared)@.len() == 0
                    &&& *final(shared) == *old(shared)
                },
            },
    {
        match self.pop(shared) {
            Some(popper) => Some(popper.release(self, shared)),
            None => None,
        }
    }

    /// Drains the queue on teardown: every value still queued is handed
    /// back exactly once, oldest first, and the buffer is left empty.
    pub fn drain<T>(&mut self, shared: &mut Shared<T>) -> (r: Vec<T>)
        requires
            old(self).wf_for(*old(shared)),
        ensures
            final(self).wf_for(*final(shared)),
            r@ == old(shared)@,
            final(shared)@.len() == 0,
            final(shared).cap() == old(shared).cap(),
    {
        let mut out: Vec<T> = Vec::new();
        loop
            invariant
                self.wf_for(*shared),
                shared.cap() == old(shared).cap(),
                out@ + shared@ == old(shared)@,
            ensures
                self.wf_for(*shared),
                shared.cap() == old(shared).cap(),
                out@ == old(shared)@,
                shared@.len() == 0,
            decreases shared@.len(),
        {
            match self.pop_value(shared) {
                Some(v) => {
                    out.push(v);
                    proof {
                        assert(out@ + shared@ =~= old(shared)@);
                    }
                },
                None => {
                    proof {
                        assert(out@ =~= old(shared)@);
                    }
                    break ;
                },
            }
        }
        out
    }
}

/// Builds one bounded queue of the given positive capacity and hands back
/// the producer side, the consumer side, and the shared ring they drive.
pub fn new<T>(capacity: usize) -> (r: (Producer, Consumer, Shared<T>))
    requires
        capacity > 0,
    ensures
        r.2.wf(),
        r.0.wf_for(r.2),
        r.1.wf_for(r.2),
        r.2@ == Seq::<T>::empty(),
        r.2.cap() == capacity,
        r.2.head_cursor() == 0,
        r.2.tail_cursor() == 0,
{
    let mut slots: Vec<Option<T>> = Vec::new();
    let mut i: usize = 0;
    while i < capacity
        invariant
            i <= capacity,
            slots.len() == i,
            forall|k: int| 0 <= k < i ==> slots[k] is None,
        decreases capacity - i,
    {
        slots.push(None);
        i = i + 1;
    }
    let shared = Shared { slots, capacity, head: 0, tail: 0 };
    let producer = Producer { head: 0, cache_tail: 0 };
    let consumer = Consumer { tail: 0, cache_head: 0 };
    proof {
        assert(shared@ =~= Seq::<T>::empty());
    }
    (producer, consumer, shared)
}

} // verus!
