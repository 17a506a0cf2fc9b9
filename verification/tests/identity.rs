use native_threads::{current, nonzero_thread_id, park, park_timeout, Thread};

#[test]
fn current_thread_has_a_handle() {
    let me = current();
    assert_ne!(me.as_raw(), 0);
}

#[test]
fn current_is_the_native_handle_of_the_caller() {
    let native = origin::thread::current().to_raw_non_null().addr().get();
    assert_eq!(current().as_raw(), native);
}

#[test]
fn identity_is_stable_within_a_thread() {
    let first = current().id();
    park();
    let second = current().id();
    assert_eq!(first, second);
}

#[test]
fn identity_is_the_handle_address() {
    let me = current();
    assert_eq!(me.id().as_usize(), me.as_raw());
}

#[test]
fn nonzero_thread_id_names_the_caller() {
    let word = nonzero_thread_id();
    assert_ne!(word, 0);
    assert_eq!(word, current().id().as_usize());
}

#[test]
fn null_address_names_no_thread() {
    assert!(Thread::from_raw(0).is_none());
}

#[test]
fn handle_keeps_its_address() {
    let thread = Thread::from_raw(0x7f00_1000).unwrap();
    assert_eq!(thread.as_raw(), 0x7f00_1000);
    assert_eq!(thread.id().as_usize(), 0x7f00_1000);
}

#[test]
fn different_handles_have_different_identities() {
    let a = Thread::from_raw(0x1000).unwrap();
    let b = Thread::from_raw(0x2000).unwrap();
    assert_ne!(a.id(), b.id());
    assert_ne!(a, b);
}

#[test]
fn reused_address_gives_the_same_identity() {
    let earlier = Thread::from_raw(0x3000).unwrap();
    let later = Thread::from_raw(0x3000).unwrap();
    assert_eq!(earlier.id(), later.id());
    assert_eq!(earlier, later);
}

#[test]
fn unpark_does_nothing_and_returns() {
    let me = current();
    me.unpark();
    assert_eq!(me, current());
}

#[test]
fn park_returns() {
    park();
}

#[test]
fn park_timeout_ignores_the_duration() {
    park_timeout(0);
    park_timeout(u64::MAX);
}
