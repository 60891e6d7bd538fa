use std::cell::Cell;
use std::rc::Rc;

use sync_toolkit::lfqueue::lockfreequeue::LockFreeQueue;

struct PayloadCounter {
    hits: Rc<Cell<u32>>,
}

impl Drop for PayloadCounter {
    fn drop(&mut self) {
        self.hits.set(self.hits.get() + 1);
    }
}

#[test]
fn enqueue_dequeue_order() {
    let mut q = LockFreeQueue::new();
    q.push(1u64);
    q.push(2);
    q.push(3);
    assert_eq!(q.pop(), Some(1));
    assert_eq!(q.pop(), Some(2));
    assert_eq!(q.pop(), Some(3));
    assert_eq!(q.pop(), None);
}

#[test]
fn dequeue_empty_is_none() {
    let mut q: LockFreeQueue<u64> = LockFreeQueue::new();
    assert_eq!(q.pop(), None);
    assert_eq!(q.pop(), None);
    assert_eq!(q.total_nodes(), 1);
}

// Several producers' uniquely tagged values, interleaved one operation
// at a time: the drained multiset equals the enqueued multiset, and
// each producer's own values keep their program order.
#[test]
fn interleaved_producers_conserve_tags() {
    let producers: u64 = 3;
    let per_producer: u64 = 50;
    let mut q = LockFreeQueue::new();
    // round-robin interleaving of the three producers
    for i in 0..per_producer {
        for p in 0..producers {
            q.push((p, i));
        }
    }
    let mut drained: Vec<(u64, u64)> = Vec::new();
    while let Some(v) = q.pop() {
        drained.push(v);
    }
    assert_eq!(drained.len(), (producers * per_producer) as usize);
    // multiset equality: every tag exactly once
    let mut sorted = drained.clone();
    sorted.sort();
    let mut expected: Vec<(u64, u64)> = Vec::new();
    for p in 0..producers {
        for i in 0..per_producer {
            expected.push((p, i));
        }
    }
    assert_eq!(sorted, expected);
    // per-producer program order is preserved
    for p in 0..producers {
        let own: Vec<u64> = drained.iter().filter(|(a, _)| *a == p).map(|(_, b)| *b).collect();
        let in_order: Vec<u64> = (0..per_producer).collect();
        assert_eq!(own, in_order);
    }
}

// Repeated enqueue-N / dequeue-N cycles: the arena never grows past
// N + 1 nodes (the payloads plus the one permanent sentinel), every
// reclaimed node is reused, and the sentinel is never freed while the
// queue lives.
#[test]
fn cycles_reuse_nodes_without_leaking() {
    let n: u64 = 8;
    let mut q = LockFreeQueue::new();
    for cycle in 0..20u64 {
        for i in 0..n {
            q.push(cycle * n + i);
        }
        assert_eq!(q.total_nodes() as u64, n + 1);
        for i in 0..n {
            assert_eq!(q.pop(), Some(cycle * n + i));
        }
        assert_eq!(q.pop(), None);
        assert_eq!(q.total_nodes() as u64, n + 1);
        assert_eq!(q.free_nodes() as u64, n);
    }
}

#[test]
fn drain_returns_everything_and_reclaims_all_but_sentinel() {
    let mut q = LockFreeQueue::new();
    for i in 0..5u32 {
        q.push(i);
    }
    let drained = q.drain();
    assert_eq!(drained, vec![0, 1, 2, 3, 4]);
    assert_eq!(q.pop(), None);
    assert_eq!(q.total_nodes(), 6);
    assert_eq!(q.free_nodes(), 5);
    // the queue is still usable after a drain
    q.push(9);
    assert_eq!(q.pop(), Some(9));
}

#[test]
fn dropping_queue_runs_each_destructor_once() {
    let hits = Rc::new(Cell::new(0));
    let mut q = LockFreeQueue::new();
    for _ in 0..4 {
        q.push(PayloadCounter { hits: Rc::clone(&hits) });
    }
    // one payload leaves through a dequeue and is dropped by the caller
    let taken = q.pop();
    assert_eq!(hits.get(), 0);
    drop(taken);
    assert_eq!(hits.get(), 1);
    // tearing the queue down drops the three still queued, once each
    drop(q);
    assert_eq!(hits.get(), 4);
}

#[test]
fn mixed_push_pop_keeps_fifo() {
    let mut q = LockFreeQueue::new();
    q.push('a');
    q.push('b');
    assert_eq!(q.pop(), Some('a'));
    q.push('c');
    q.push('d');
    assert_eq!(q.pop(), Some('b'));
    assert_eq!(q.pop(), Some('c'));
    assert_eq!(q.pop(), Some('d'));
    assert_eq!(q.pop(), None);
}
