use std::cell::Cell;
use std::rc::Rc;

use sync_toolkit::lfqueue::fifo;

struct DropCounter {
    hits: Rc<Cell<u32>>,
}

impl Drop for DropCounter {
    fn drop(&mut self) {
        self.hits.set(self.hits.get() + 1);
    }
}

// Pushing the sequence 0..n through a buffer of the given capacity,
// popping whenever the buffer fills, must hand back 0..n exactly:
// first-in-first-out order, no loss, no duplication.
fn spsc_roundtrip(capacity: usize, n: u64) {
    let (mut p, mut c, mut s) = fifo::new::<u64>(capacity);
    let mut collected: Vec<u64> = Vec::new();
    let mut next: u64 = 0;
    while (collected.len() as u64) < n {
        while next < n {
            match p.push_value(&mut s, next) {
                Ok(()) => next += 1,
                Err(v) => {
                    assert_eq!(v, next);
                    break;
                }
            }
        }
        while let Some(v) = c.pop_value(&mut s) {
            collected.push(v);
        }
    }
    let expected: Vec<u64> = (0..n).collect();
    assert_eq!(collected, expected);
}

#[test]
fn spsc_order_capacity_1() {
    spsc_roundtrip(1, 100);
}

#[test]
fn spsc_order_capacity_2() {
    spsc_roundtrip(2, 100);
}

#[test]
fn spsc_order_capacity_1024() {
    spsc_roundtrip(1024, 5000);
}

#[test]
fn cursor_distance_stays_within_capacity() {
    let (mut p, mut c, mut s) = fifo::new::<u32>(3);
    assert_eq!(s.capacity(), 3);
    assert_eq!(s.len(), 0);
    for i in 0..3u32 {
        assert!(p.push_value(&mut s, i).is_ok());
        assert!(s.len() <= s.capacity());
    }
    assert_eq!(s.len(), 3);
    assert!(p.push_value(&mut s, 99).is_err());
    assert_eq!(s.len(), 3);
    for _ in 0..3 {
        assert!(c.pop_value(&mut s).is_some());
        assert!(s.len() <= s.capacity());
    }
    assert_eq!(s.len(), 0);
}

#[test]
fn push_on_full_returns_value_and_leaves_queue_alone() {
    let (mut p, mut c, mut s) = fifo::new::<String>(2);
    assert!(p.push_value(&mut s, String::from("a")).is_ok());
    assert!(p.push_value(&mut s, String::from("b")).is_ok());
    match p.push_value(&mut s, String::from("c")) {
        Ok(()) => panic!("push on a full buffer must fail"),
        Err(v) => assert_eq!(v, "c"),
    }
    assert_eq!(s.len(), 2);
    assert_eq!(c.pop_value(&mut s).as_deref(), Some("a"));
    assert_eq!(c.pop_value(&mut s).as_deref(), Some("b"));
    assert_eq!(c.pop_value(&mut s), None);
}

#[test]
fn reserve_push_on_full_reports_full_error() {
    let (mut p, _c, mut s) = fifo::new::<u8>(1);
    assert!(p.push_value(&mut s, 1).is_ok());
    match p.push(&s) {
        Ok(_) => panic!("reserving on a full buffer must fail"),
        Err(e) => assert_eq!(e, fifo::FullError),
    }
}

#[test]
fn pop_on_empty_returns_none_and_leaves_queue_alone() {
    let (mut p, mut c, mut s) = fifo::new::<u64>(4);
    assert_eq!(c.pop_value(&mut s), None);
    assert_eq!(s.len(), 0);
    assert!(p.push_value(&mut s, 5).is_ok());
    assert_eq!(c.pop_value(&mut s), Some(5));
    assert_eq!(c.pop_value(&mut s), None);
    assert_eq!(s.len(), 0);
}

#[test]
fn zero_copy_accessors_round_trip() {
    let (mut p, mut c, mut s) = fifo::new::<u64>(2);
    let pusher = p.push(&s).unwrap();
    pusher.write(&mut p, &mut s, 42);
    assert_eq!(s.len(), 1);
    let popper = c.pop(&s).unwrap();
    assert_eq!(*popper.read(&s), 42);
    // reading in place does not consume
    assert_eq!(s.len(), 1);
    let v = popper.release(&mut c, &mut s);
    assert_eq!(v, 42);
    assert_eq!(s.len(), 0);
}

#[test]
fn drain_hands_each_value_back_exactly_once() {
    // k = 0, 1, and the full capacity
    for k in [0usize, 1, 4] {
        let (mut p, mut c, mut s) = fifo::new::<u64>(4);
        for i in 0..k as u64 {
            assert!(p.push_value(&mut s, i).is_ok());
        }
        let drained = c.drain(&mut s);
        let expected: Vec<u64> = (0..k as u64).collect();
        assert_eq!(drained, expected);
        assert_eq!(s.len(), 0);
    }
}

#[test]
fn dropping_buffer_runs_each_destructor_once() {
    // k values pushed and never popped; tearing the buffer down must
    // run each element's destructor exactly once
    for k in [0u32, 1, 3] {
        let hits = Rc::new(Cell::new(0));
        let (mut p, c, mut s) = fifo::new::<DropCounter>(3);
        for _ in 0..k {
            assert!(p.push_value(&mut s, DropCounter { hits: Rc::clone(&hits) }).is_ok());
        }
        assert_eq!(hits.get(), 0);
        drop(s);
        drop(c);
        drop(p);
        assert_eq!(hits.get(), k);
    }
}

#[test]
fn draining_consumer_runs_each_destructor_once() {
    let hits = Rc::new(Cell::new(0));
    let (mut p, mut c, mut s) = fifo::new::<DropCounter>(4);
    for _ in 0..4 {
        assert!(p.push_value(&mut s, DropCounter { hits: Rc::clone(&hits) }).is_ok());
    }
    let drained = c.drain(&mut s);
    assert_eq!(hits.get(), 0);
    assert_eq!(drained.len(), 4);
    drop(drained);
    assert_eq!(hits.get(), 4);
    drop(s);
    assert_eq!(hits.get(), 4);
}

#[test]
fn wraparound_reuses_slots() {
    let (mut p, mut c, mut s) = fifo::new::<u64>(2);
    for round in 0..10u64 {
        assert!(p.push_value(&mut s, round * 2).is_ok());
        assert!(p.push_value(&mut s, round * 2 + 1).is_ok());
        assert_eq!(c.pop_value(&mut s), Some(round * 2));
        assert_eq!(c.pop_value(&mut s), Some(round * 2 + 1));
    }
    assert_eq!(c.pop_value(&mut s), None);
}
