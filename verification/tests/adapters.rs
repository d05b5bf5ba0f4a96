use mioco::sched::{Direction, Scheduler};
use mioco::sync::{acquire_protocol, LockError, Mutex, RawMutex, RawRwLock, RwLock, TryAcquire};
use mioco::udp::{io_protocol, io_step, IoAction, TryIo};

/// A scheduler that only counts how often the adapters hand control back.
struct CountingScheduler {
    yields: usize,
    suspends: usize,
}

impl Scheduler for CountingScheduler {
    fn yield_now(&mut self) {
        self.yields += 1;
    }

    fn block_on(&mut self, _direction: Direction) {
        self.suspends += 1;
    }
}

fn counting() -> CountingScheduler {
    CountingScheduler { yields: 0, suspends: 0 }
}

#[test]
fn fresh_mutex_yields_initial_value() {
    let mut m = Mutex::new(41i32);
    assert!(m.lock().is_ok());
    assert_eq!(*m.lock.get(), 41);
    m.lock.unlock();
}

#[test]
fn fresh_rwlock_yields_initial_value_for_readers_and_writer() {
    let mut l = RwLock::new(String::from("fresh"));
    assert!(l.read().is_ok());
    assert_eq!(*l.lock.get(), "fresh");
    l.lock.release_read();

    assert!(l.write().is_ok());
    assert_eq!(*l.lock.get(), "fresh");
    l.lock.release_write();
}

#[test]
fn raw_mutex_first_attempt_acquires() {
    let mut m = RawMutex::new(7u64);
    assert_eq!(m.try_lock(), TryAcquire::Acquired);
    assert_eq!(*m.get(), 7);
    m.unlock();
}

#[test]
fn held_mutex_reports_contention_and_is_unchanged() {
    let mut m = Mutex::new(3u8);
    assert_eq!(m.try_lock(), TryAcquire::Acquired);
    // A second task's attempts while the mutex is held: contended, no effect.
    assert_eq!(m.try_lock(), TryAcquire::WouldBlock);
    assert_eq!(m.try_lock(), TryAcquire::WouldBlock);
    assert_eq!(*m.lock.get(), 3);
    m.lock.unlock();
    assert_eq!(m.try_lock(), TryAcquire::Acquired);
}

#[test]
fn writer_blocks_all_acquisitions_until_release() {
    let mut l = RwLock::new(0i64);
    assert_eq!(l.try_write(), TryAcquire::Acquired);
    // While the writer holds, no shared or exclusive attempt is granted.
    assert_eq!(l.try_read(), TryAcquire::WouldBlock);
    assert_eq!(l.try_write(), TryAcquire::WouldBlock);
    // The writer leaves a new value behind; the next acquisition sees it.
    l.lock.set(-9);
    l.lock.release_write();
    assert_eq!(l.try_read(), TryAcquire::Acquired);
    assert_eq!(*l.lock.get(), -9);
    l.lock.release_read();
}

#[test]
fn readers_share_and_block_writer() {
    let mut l = RwLock::new(5u32);
    assert_eq!(l.try_read(), TryAcquire::Acquired);
    assert_eq!(l.try_read(), TryAcquire::Acquired);
    assert_eq!(l.try_write(), TryAcquire::WouldBlock);
    l.lock.release_read();
    assert_eq!(l.try_write(), TryAcquire::WouldBlock);
    l.lock.release_read();
    assert_eq!(l.try_write(), TryAcquire::Acquired);
    l.lock.release_write();
}

#[test]
fn poisoned_mutex_never_grants_again() {
    let mut m = Mutex::new(1u16);
    assert!(m.lock().is_ok());
    // The holder fails: the mutex is released but permanently poisoned.
    m.lock.poison();
    assert!(m.lock.is_poisoned());
    assert_eq!(m.try_lock(), TryAcquire::Poisoned);
    assert_eq!(m.try_lock(), TryAcquire::Poisoned);
    assert_eq!(m.lock(), Err(LockError::Poisoned));
}

#[test]
fn poisoned_rwlock_never_grants_again() {
    let mut l = RwLock::new(2u16);
    assert!(l.write().is_ok());
    l.lock.poison();
    assert!(l.is_poisoned());
    assert_eq!(l.try_read(), TryAcquire::Poisoned);
    assert_eq!(l.try_write(), TryAcquire::Poisoned);
    assert_eq!(l.read(), Err(LockError::Poisoned));
    assert_eq!(l.write(), Err(LockError::Poisoned));
}

#[test]
fn native_lock_reaches_the_raw_primitive() {
    let mut m = Mutex::new(10i32);
    assert_eq!(m.native_lock().try_lock(), TryAcquire::Acquired);
    m.native_lock().set(11);
    m.native_lock().unlock();

    let mut l = RwLock::new(10i32);
    assert_eq!(l.native_lock().try_write(), TryAcquire::Acquired);
    assert_eq!(*l.native_lock().get(), 10);
    l.native_lock().release_write();
}

#[test]
fn try_operations_never_touch_the_scheduler() {
    // The non-blocking attempts take no scheduler at all; the protocol
    // engine yields exactly once per contended attempt and nothing else.
    let mut sched = counting();
    let r = acquire_protocol(&vec![TryAcquire::Acquired], &mut sched);
    assert_eq!(r, Some(Ok(())));
    assert_eq!(sched.yields, 0);
    assert_eq!(sched.suspends, 0);
}

#[test]
fn protocol_yields_once_per_contended_attempt() {
    let mut sched = counting();
    let attempts = vec![TryAcquire::WouldBlock, TryAcquire::WouldBlock, TryAcquire::Acquired];
    let r = acquire_protocol(&attempts, &mut sched);
    assert_eq!(r, Some(Ok(())));
    assert_eq!(sched.yields, 2);
}

#[test]
fn protocol_surfaces_poison_without_yielding_on_it() {
    let mut sched = counting();
    let attempts = vec![TryAcquire::WouldBlock, TryAcquire::Poisoned, TryAcquire::Acquired];
    let r = acquire_protocol(&attempts, &mut sched);
    assert_eq!(r, Some(Err(LockError::Poisoned)));
    assert_eq!(sched.yields, 1);
}

#[test]
fn protocol_keeps_waiting_while_everything_is_contended() {
    let mut sched = counting();
    let attempts = vec![TryAcquire::WouldBlock; 5];
    let r = acquire_protocol(&attempts, &mut sched);
    assert_eq!(r, None);
    assert_eq!(sched.yields, 5);
}

#[test]
fn two_tasks_each_increment_shared_counter_to_two() {
    // Two tasks share one mutex-guarded counter starting at zero; each
    // runs acquire, add one, release. Contended attempts by the waiting
    // task change nothing, and the final value is exactly two.
    let mut m = Mutex::new(0i32);

    // Task A's critical section, with task B probing meanwhile.
    assert!(m.lock().is_ok());
    assert_eq!(m.try_lock(), TryAcquire::WouldBlock);
    let v = *m.lock.get();
    m.lock.set(v + 1);
    assert_eq!(m.try_lock(), TryAcquire::WouldBlock);
    m.lock.unlock();

    // Task B's critical section.
    assert!(m.lock().is_ok());
    let v = *m.lock.get();
    m.lock.set(v + 1);
    m.lock.unlock();

    assert_eq!(m.try_lock(), TryAcquire::Acquired);
    assert_eq!(*m.lock.get(), 2);
}

#[test]
fn io_protocol_suspends_until_the_datagram_arrives() {
    // Two attempts find the socket unready — each suspends the task for
    // readability — and the third observes an arrived 5-byte datagram,
    // which is returned as is.
    let mut sched = counting();
    let mut attempts = vec![
        TryIo::NotReady,
        TryIo::NotReady,
        TryIo::<(usize, u32), String>::Done((5, 9000)),
    ];
    let r = io_protocol(&mut attempts, Direction::Readable, &mut sched);
    assert!(matches!(r, Some(Ok((5, 9000)))));
    assert_eq!(sched.suspends, 2);
    assert_eq!(sched.yields, 0);
}

#[test]
fn io_protocol_surfaces_an_error_without_suspending_on_it() {
    let mut sched = counting();
    let mut attempts = vec![
        TryIo::<usize, String>::Fault(String::from("permission denied")),
        TryIo::Done(3),
    ];
    let r = io_protocol(&mut attempts, Direction::Writable, &mut sched);
    assert!(matches!(r, Some(Err(e)) if e == "permission denied"));
    assert_eq!(sched.suspends, 0);
}

#[test]
fn io_protocol_keeps_waiting_while_the_socket_stays_unready() {
    let mut sched = counting();
    let mut attempts = vec![TryIo::<usize, String>::NotReady, TryIo::NotReady, TryIo::NotReady];
    let r = io_protocol(&mut attempts, Direction::Readable, &mut sched);
    assert!(r.is_none());
    assert!(attempts.is_empty());
    assert_eq!(sched.suspends, 3);
}

#[test]
fn io_step_suspends_on_unreadiness_with_the_requested_direction() {
    // A receive attempt with no pending datagram: not ready, so the task
    // suspends for readability and nothing is returned or failed.
    let a = io_step(TryIo::<(usize, u32), String>::NotReady, Direction::Readable);
    assert!(matches!(a, IoAction::Suspend(Direction::Readable)));

    let b = io_step(TryIo::<usize, String>::NotReady, Direction::Writable);
    assert!(matches!(b, IoAction::Suspend(Direction::Writable)));
}

#[test]
fn io_step_returns_a_completed_transfer_unchanged() {
    // A 5-byte datagram arrived from a sender: the loop returns exactly
    // that byte count and sender, nothing else.
    let a = io_step(TryIo::<(usize, u32), String>::Done((5, 0xC0A80001)), Direction::Readable);
    match a {
        IoAction::Return((n, from)) => {
            assert_eq!(n, 5);
            assert_eq!(from, 0xC0A80001);
        }
        _ => panic!("a completed transfer must be returned"),
    }
}

#[test]
fn io_step_surfaces_real_errors_immediately() {
    let a = io_step(TryIo::<usize, String>::Fault(String::from("address in use")), Direction::Writable);
    match a {
        IoAction::Fail(e) => assert_eq!(e, "address in use"),
        _ => panic!("a genuine error must be surfaced, never retried"),
    }
}
