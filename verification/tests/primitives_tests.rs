use sync_toolkit::arc::Arc;
use sync_toolkit::channel::Channel;
use sync_toolkit::condvar::Condvar;
use sync_toolkit::mutex;
use sync_toolkit::mutex::{lock_contended_step, ContendedStep};
use sync_toolkit::one_shot_ch;
use sync_toolkit::rwlock;
use sync_toolkit::rwlock::{read_step, ReadStep};
use sync_toolkit::spin_lock;

#[test]
fn spin_lock_guards_value() {
    let mut lock = spin_lock::SpinLock::new(vec![1, 2]);
    let mut g = lock.lock();
    assert_eq!(*g.get(), vec![1, 2]);
    g.set(vec![1, 2, 3]);
    lock.unlock(g);
    let g2 = lock.lock();
    assert_eq!(*g2.get(), vec![1, 2, 3]);
    assert_eq!(g2.into_inner(), vec![1, 2, 3]);
}

#[test]
fn mutex_lock_and_unlock() {
    let mut m = mutex::Mutex::new(10u64);
    let mut g = m.lock();
    assert_eq!(*g.get(), 10);
    g.set(11);
    let woke = m.unlock(g);
    // nobody was parked on an uncontended word
    assert!(!woke);
    let g2 = m.lock();
    assert_eq!(*g2.get(), 11);
    let _ = m.unlock(g2);
}

#[test]
fn mutex_contended_word_owes_wakeup() {
    let mut m = mutex::Mutex::new(0u8);
    // the word was free: the swap both marks contention and acquires
    let g = m.swap_contended().expect("free lock must be acquired");
    // releasing a contended word owes a wake-up
    assert!(m.unlock(g));
    // now the lock is free again; take it, then a contender swaps
    let _g2 = m.lock();
    assert!(m.swap_contended().is_none());
}

#[test]
fn mutex_slow_path_decisions() {
    assert_eq!(lock_contended_step(1, 0), ContendedStep::Spin);
    assert_eq!(lock_contended_step(1, 99), ContendedStep::Spin);
    assert_eq!(lock_contended_step(1, 100), ContendedStep::Park);
    assert_eq!(lock_contended_step(0, 3), ContendedStep::TryAcquire);
    assert_eq!(lock_contended_step(2, 0), ContendedStep::Park);
}

#[test]
fn rwlock_readers_then_writer() {
    let mut lock = rwlock::RwLock::new(7u32);
    let r1 = lock.read();
    let r2 = lock.read();
    assert_eq!(*lock.get(), 7);
    // not the last reader: no wake owed
    assert!(!lock.read_unlock(r1));
    // last reader out wakes a waiting writer
    assert!(lock.read_unlock(r2));
    let mut w = lock.write();
    assert_eq!(*w.get(), 7);
    w.set(8);
    lock.write_unlock(w);
    assert_eq!(*lock.get(), 8);
}

#[test]
fn rwlock_read_decision() {
    assert_eq!(read_step(0), ReadStep::TryIncrement);
    assert_eq!(read_step(5), ReadStep::TryIncrement);
    assert_eq!(read_step(u32::MAX), ReadStep::Wait);
}

#[test]
fn condvar_generation_counter() {
    let mut cv = Condvar::new();
    let seen = cv.snapshot();
    assert_eq!(seen, 0);
    // nothing happened since the snapshot: the waiter parks
    assert!(cv.should_park(seen));
    cv.notify_one();
    // the generation moved: the waiter must not park
    assert!(!cv.should_park(seen));
    assert_eq!(cv.snapshot(), 1);
    cv.notify_all();
    assert_eq!(cv.snapshot(), 2);
}

#[test]
fn channel_send_receive_newest_first() {
    let mut ch = Channel::new();
    ch.send(1u8);
    ch.send(2);
    ch.send(3);
    // the channel hands out the most recently sent message first
    assert_eq!(ch.receive(), 3);
    assert_eq!(ch.receive(), 2);
    ch.send(4);
    assert_eq!(ch.receive(), 4);
    assert_eq!(ch.receive(), 1);
}

#[test]
fn channel_try_receive_reports_empty() {
    let mut ch: Channel<u8> = Channel::new();
    assert_eq!(ch.try_receive(), None);
    ch.send(9);
    assert_eq!(ch.try_receive(), Some(9));
    assert_eq!(ch.try_receive(), None);
}

#[test]
fn one_shot_send_then_receive() {
    let mut ch = one_shot_ch::Channel::new();
    let (sender, receiver) = ch.split();
    assert!(!receiver.is_ready(&ch));
    sender.send(&mut ch, "a");
    assert!(receiver.is_ready(&ch));
    assert_eq!(receiver.receive(&mut ch), "a");
}

#[test]
fn one_shot_split_resets() {
    let mut ch = one_shot_ch::Channel::new();
    let (sender, _receiver) = ch.split();
    sender.send(&mut ch, 5u64);
    // a fresh split drops the unreceived message and starts over
    let (sender2, receiver2) = ch.split();
    assert!(!receiver2.is_ready(&ch));
    sender2.send(&mut ch, 6);
    assert_eq!(receiver2.receive(&mut ch), 6);
}

#[test]
fn arc_counts_handles() {
    let mut a = Arc::new(String::from("shared"));
    assert_eq!(a.get(), "shared");
    // a second handle appears: no exclusive access
    a.retain();
    assert!(Arc::get_mut(&mut a).is_none());
    // the second handle goes away without freeing
    assert!(!a.release());
    // sole handle again: exclusive access is granted
    let m = Arc::get_mut(&mut a).expect("sole handle gets exclusive access");
    m.push_str(" data");
    assert_eq!(a.get(), "shared data");
    // the last handle's release frees the allocation
    assert!(a.release());
}
