use native_threads::{current, spawn, spawn_unchecked, Completion, Disposal, Launch, Scope, SpawnError, Thread};
use std::sync::atomic::{AtomicUsize, Ordering};
use std::sync::Arc;

#[test]
fn spawn_asks_for_the_default_sizes() {
    let launch = spawn(|| {});
    assert_eq!(launch.stack_size(), origin::thread::default_stack_size());
    assert_eq!(launch.guard_size(), origin::thread::default_guard_size());
    assert_ne!(launch.stack_size(), 0);
}

#[test]
fn launch_keeps_the_sizes_it_was_given() {
    let launch = Launch::with_sizes(|| {}, None, 65536, 4096);
    assert_eq!(launch.stack_size(), 65536);
    assert_eq!(launch.guard_size(), 4096);
}

#[test]
fn package_runs_the_work_once() {
    let runs = Arc::new(AtomicUsize::new(0));
    let seen = runs.clone();
    let launch = spawn(move || {
        seen.fetch_add(1, Ordering::SeqCst);
    });
    let (package, _ticket) = launch.into_parts();
    assert_eq!(runs.load(Ordering::SeqCst), 0);
    let done = package.run();
    assert_eq!(runs.load(Ordering::SeqCst), 1);
    assert_eq!(done, Completion::Unscoped);
}

#[test]
fn package_takes_the_work_away_from_the_spawner() {
    let owned = String::from("moved");
    let lengths = Arc::new(AtomicUsize::new(0));
    let sink = lengths.clone();
    let launch = spawn(move || {
        sink.store(owned.len(), Ordering::SeqCst);
    });
    let (package, _ticket) = launch.into_parts();
    package.run();
    assert_eq!(lengths.load(Ordering::SeqCst), 5);
}

#[test]
fn unscoped_package_reports_no_scope() {
    let launch = spawn_unchecked(|| {}, None);
    let (package, _ticket) = launch.into_parts();
    assert_eq!(package.run(), Completion::Unscoped);
}

#[test]
fn scoped_package_reports_to_its_scope() {
    let scope = Scope::new();
    let launch = scope.spawn(|| {});
    let (package, _ticket) = launch.into_parts();
    assert_eq!(scope.poll().outstanding, 1);
    let done = package.run();
    assert_eq!(done, Completion::Scoped { previous: 1, woke: true });
    assert_eq!(scope.poll().outstanding, 0);
}

#[test]
fn created_thread_gets_a_handle() {
    let thread = Thread::from_raw(0x5000).unwrap();
    let (_package, ticket) = spawn(|| {}).into_parts();
    let handle = ticket.conclude(Ok(thread)).unwrap();
    assert_eq!(handle.thread, thread);
}

#[test]
fn refused_creation_is_an_error() {
    let (_package, ticket) = spawn(|| {}).into_parts();
    let outcome = ticket.conclude(Err(11));
    assert_eq!(outcome.err(), Some(SpawnError { errno: 11 }));
}

#[test]
fn refused_creation_keeps_the_error_number() {
    let (_package, ticket) = spawn(|| {}).into_parts();
    let error = ticket.conclude(Err(12)).err().unwrap();
    assert_eq!(error.errno, 12);
}

#[test]
fn join_calls_for_the_blocking_operation() {
    let thread = current();
    let (_package, ticket) = spawn(|| {}).into_parts();
    let handle = ticket.conclude(Ok(thread)).unwrap();
    assert_eq!(handle.join(), Disposal::Join(thread));
}

#[test]
fn detach_calls_for_the_operation_that_does_not_block() {
    let thread = current();
    let (_package, ticket) = spawn(|| {}).into_parts();
    let handle = ticket.conclude(Ok(thread)).unwrap();
    assert_eq!(handle.detach(), Disposal::Detach(thread));
}

#[test]
fn detached_thread_still_runs_to_its_end() {
    let ran = Arc::new(AtomicUsize::new(0));
    let flag = ran.clone();
    let (package, ticket) = spawn(move || {
        flag.store(1, Ordering::SeqCst);
    }).into_parts();
    let handle = ticket.conclude(Ok(current())).unwrap();
    let disposal = handle.detach();
    assert!(matches!(disposal, Disposal::Detach(_)));
    assert_eq!(ran.load(Ordering::SeqCst), 0);
    package.run();
    assert_eq!(ran.load(Ordering::SeqCst), 1);
}
