//! The two queue designs at the heart of the toolkit: a bounded
//! single-producer/single-consumer ring buffer (`fifo`) and an unbounded
//! multi-producer/multi-consumer linked queue (`lockfreequeue`) — plus
//! the order and conservation laws their first-in-first-out contracts
//! obey over any run of operations.

pub mod fifo;
pub mod lockfreequeue;

use vstd::prelude::*;
use vstd::seq_lib::lemma_multiset_commutative;

verus! {

/// One abstract queue operation, as issued by any producer or consumer.
pub enum QueueOp<T> {
    Enqueue(T),
    Dequeue,
}

/// The queue contents after running `ops` left to right under the
/// first-in-first-out semantics that both queues' contracts pin down:
/// an enqueue appends at the back; a dequeue removes the front of a
/// non-empty queue and leaves an empty one untouched.
pub open spec fn run_contents<T>(start: Seq<T>, ops: Seq<QueueOp<T>>) -> Seq<T>
    decreases ops.len(),
{
    if ops.len() == 0 {
        start
    } else {
        let rest = run_contents(start, ops.drop_last());
        match ops.last() {
            QueueOp::Enqueue(v) => rest.push(v),
            QueueOp::Dequeue => if rest.len() > 0 {
                rest.drop_first()
            } else {
                rest
            },
        }
    }
}

/// The values the dequeues of `ops` hand out, in the order they leave
/// the queue.
pub open spec fn run_outputs<T>(start: Seq<T>, ops: Seq<QueueOp<T>>) -> Seq<T>
    decreases ops.len(),
{
    if ops.len() == 0 {
        Seq::empty()
    } else {
        let out = run_outputs(start, ops.drop_last());
        let rest = run_contents(start, ops.drop_last());
        match ops.last() {
            QueueOp::Enqueue(_) => out,
            QueueOp::Dequeue => if rest.len() > 0 {
                out.push(rest.first())
            } else {
                out
            },
        }
    }
}

/// The values the enqueues of `ops` put in, in arrival order.
pub open spec fn enqueued<T>(ops: Seq<QueueOp<T>>) -> Seq<T>
    decreases ops.len(),
{
    if ops.len() == 0 {
        Seq::empty()
    } else {
        match ops.last() {
            QueueOp::Enqueue(v) => enqueued(ops.drop_last()).push(v),
            QueueOp::Dequeue => enqueued(ops.drop_last()),
        }
    }
}

/// A run of one enqueue is exactly what the queues' push contracts
/// state of their views: the value joins the back and nothing is
/// handed out.
pub proof fn lemma_single_enqueue<T>(start: Seq<T>, v: T)
    ensures
        run_contents(start, seq![QueueOp::Enqueue(v)]) == start.push(v),
        run_outputs(start, seq![QueueOp::Enqueue(v)]) == Seq::<T>::empty(),
{
    let ops = seq![QueueOp::Enqueue(v)];
    assert(ops.drop_last() =~= Seq::<QueueOp<T>>::empty());
    assert(run_contents(start, ops.drop_last()) == start);
    assert(run_outputs(start, ops.drop_last()) == Seq::<T>::empty());
    assert(ops.last() == QueueOp::Enqueue(v));
}

/// A run of one dequeue is exactly what the queues' pop contracts
/// state of their views: the front of a non-empty queue leaves and is
/// handed out; an empty queue is left untouched.
pub proof fn lemma_single_dequeue<T>(start: Seq<T>)
    ensures
        start.len() > 0 ==> run_contents(start, seq![QueueOp::Dequeue]) == start.drop_first(),
        start.len() > 0 ==> run_outputs(start, seq![QueueOp::Dequeue]) == seq![start.first()],
        start.len() == 0 ==> run_contents(start, seq![QueueOp::Dequeue]) == start,
        start.len() == 0 ==> run_outputs(start, seq![QueueOp::Dequeue]) == Seq::<T>::empty(),
{
    let ops = seq![QueueOp::<T>::Dequeue];
    assert(ops.drop_last() =~= Seq::<QueueOp<T>>::empty());
    assert(run_contents(start, ops.drop_last()) == start);
    assert(run_outputs(start, ops.drop_last()) == Seq::<T>::empty());
    assert(ops.last() == QueueOp::<T>::Dequeue);
    if start.len() > 0 {
        assert(run_outputs(start, ops) =~= seq![start.first()]);
    }
}

/// First-in-first-out conservation: over any run of enqueues and
/// dequeues — any interleaving, by any number of producers and
/// consumers taking turns — what has come out, followed by what is
/// still queued, is exactly what was queued at the start followed by
/// what went in, in arrival order. No value is lost, duplicated or
/// reordered; in particular every producer's own values come out in its
/// program order.
pub proof fn lemma_fifo_run<T>(start: Seq<T>, ops: Seq<QueueOp<T>>)
    ensures
        run_outputs(start, ops) + run_contents(start, ops) == start + enqueued(ops),
    decreases ops.len(),
{
    if ops.len() == 0 {
        assert(run_outputs(start, ops) + run_contents(start, ops) =~= start + enqueued(ops));
    } else {
        lemma_fifo_run(start, ops.drop_last());
        let out = run_outputs(start, ops.drop_last());
        let rest = run_contents(start, ops.drop_last());
        match ops.last() {
            QueueOp::Enqueue(v) => {
                assert(out + rest.push(v) =~= (out + rest).push(v));
                assert((start + enqueued(ops.drop_last())).push(v) =~= start + enqueued(ops));
            },
            QueueOp::Dequeue => {
                if rest.len() > 0 {
                    assert(out.push(rest.first()) + rest.drop_first() =~= out + rest);
                }
            },
        }
    }
}

/// The dequeued values are always a prefix of the arrival order: value
/// `i` of the run's output is value `i` of "what was queued at the
/// start, then everything enqueued, oldest first".
pub proof fn lemma_fifo_outputs_prefix<T>(start: Seq<T>, ops: Seq<QueueOp<T>>)
    ensures
        run_outputs(start, ops) == (start + enqueued(ops)).take(
            run_outputs(start, ops).len() as int,
        ),
{
    lemma_fifo_run(start, ops);
    let out = run_outputs(start, ops);
    let arrivals = start + enqueued(ops);
    assert(out =~= arrivals.take(out.len() as int));
}

/// Multiset conservation: after any run, the multiset of dequeued
/// values added to the multiset still queued equals the starting
/// multiset added to the enqueued one. Drained to empty, the dequeued
/// tags are exactly the enqueued tags — no loss, no duplication.
pub proof fn lemma_fifo_run_multiset<T>(start: Seq<T>, ops: Seq<QueueOp<T>>)
    ensures
        run_outputs(start, ops).to_multiset().add(run_contents(start, ops).to_multiset())
            == start.to_multiset().add(enqueued(ops).to_multiset()),
{
    lemma_fifo_run(start, ops);
    lemma_multiset_commutative(run_outputs(start, ops), run_contents(start, ops));
    lemma_multiset_commutative(start, enqueued(ops));
}

} // verus!
