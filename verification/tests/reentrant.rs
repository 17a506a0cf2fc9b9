use native_threads::{Acquire, LockState, Release, Thread, ThreadId};

fn thread_a() -> ThreadId {
    Thread::from_raw(0xa000).unwrap().id()
}

fn thread_b() -> ThreadId {
    Thread::from_raw(0xb000).unwrap().id()
}

#[test]
fn new_lock_is_free() {
    let lock = LockState::new();
    assert_eq!(lock.owner(), None);
    assert_eq!(lock.depth(), 0);
    assert!(!lock.is_held_by(thread_a()));
}

#[test]
fn free_lock_is_taken() {
    let mut lock = LockState::new();
    assert_eq!(lock.acquire(thread_a()), Acquire::Acquired);
    assert_eq!(lock.owner(), Some(thread_a()));
    assert_eq!(lock.depth(), 1);
    assert!(lock.is_held_by(thread_a()));
    assert!(!lock.is_held_by(thread_b()));
}

#[test]
fn nested_lock_does_not_block_its_holder() {
    let mut lock = LockState::new();
    assert_eq!(lock.acquire(thread_a()), Acquire::Acquired);
    assert_eq!(lock.acquire(thread_a()), Acquire::Reentered);
    assert_eq!(lock.depth(), 2);
    assert_eq!(lock.owner(), Some(thread_a()));
}

#[test]
fn other_thread_waits_until_the_outer_release() {
    let mut lock = LockState::new();
    assert_eq!(lock.acquire(thread_a()), Acquire::Acquired);
    assert_eq!(lock.acquire(thread_a()), Acquire::Reentered);
    assert_eq!(lock.release(thread_a()), Release::StillHeld);
    assert_eq!(lock.acquire(thread_b()), Acquire::Busy);
    assert_eq!(lock.owner(), Some(thread_a()));
    assert_eq!(lock.depth(), 1);
    assert_eq!(lock.release(thread_a()), Release::Unlocked);
    assert_eq!(lock.owner(), None);
    assert_eq!(lock.acquire(thread_b()), Acquire::Acquired);
    assert_eq!(lock.owner(), Some(thread_b()));
    assert_eq!(lock.depth(), 1);
}

#[test]
fn busy_lock_is_left_alone() {
    let mut lock = LockState::new();
    lock.acquire(thread_a());
    assert_eq!(lock.acquire(thread_b()), Acquire::Busy);
    assert_eq!(lock.acquire(thread_b()), Acquire::Busy);
    assert_eq!(lock.depth(), 1);
    assert!(lock.is_held_by(thread_a()));
}

#[test]
fn deep_nesting_unwinds_level_by_level() {
    let mut lock = LockState::new();
    for level in 0..10 {
        let outcome = lock.acquire(thread_a());
        assert_eq!(outcome, if level == 0 { Acquire::Acquired } else { Acquire::Reentered });
    }
    assert_eq!(lock.depth(), 10);
    for level in (1..10).rev() {
        assert_eq!(lock.release(thread_a()), Release::StillHeld);
        assert_eq!(lock.depth(), level);
        assert_eq!(lock.acquire(thread_b()), Acquire::Busy);
    }
    assert_eq!(lock.release(thread_a()), Release::Unlocked);
    assert_eq!(lock.acquire(thread_b()), Acquire::Acquired);
}

#[test]
fn only_the_holder_can_release() {
    let mut lock = LockState::new();
    assert_eq!(lock.release(thread_a()), Release::NotOwner);
    lock.acquire(thread_a());
    assert_eq!(lock.release(thread_b()), Release::NotOwner);
    assert_eq!(lock.depth(), 1);
    assert!(lock.is_held_by(thread_a()));
}

#[test]
fn depth_that_cannot_be_counted_is_refused() {
    let mut lock = LockState::held_by(thread_a(), usize::MAX).unwrap();
    assert_eq!(lock.acquire(thread_a()), Acquire::TooDeep);
    assert_eq!(lock.depth(), usize::MAX);
    assert_eq!(lock.acquire(thread_b()), Acquire::Busy);
    assert_eq!(lock.release(thread_a()), Release::StillHeld);
    assert_eq!(lock.acquire(thread_a()), Acquire::Reentered);
}

#[test]
fn held_lock_needs_a_depth() {
    assert!(LockState::held_by(thread_a(), 0).is_none());
    let lock = LockState::held_by(thread_a(), 3).unwrap();
    assert_eq!(lock.owner(), Some(thread_a()));
    assert_eq!(lock.depth(), 3);
}
