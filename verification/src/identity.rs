//! Thread handles and thread identities.

use vstd::prelude::*;

verus! {

/// The identity of a thread: the address of its native handle.
///
/// Two threads that are alive at the same time have different native handles,
/// so their identities differ. An identity is free for reuse once its thread
/// has terminated and its handle has been reclaimed.
#[derive(Clone, Copy, Debug, PartialEq, Eq, Structural)]
pub struct ThreadId(usize);

impl View for ThreadId {
    type V = usize;

    closed spec fn view(&self) -> usize {
        self.0
    }
}

impl ThreadId {
    #[verifier::type_invariant]
    spec fn nonzero(self) -> bool {
        self.0 != 0
    }

    /// The identity as a machine word. It is never zero.
    pub fn as_usize(&self) -> (word: usize)
        ensures
            word == self@,
            word != 0,
    {
        proof {
            use_type_invariant(self);
        }
        self.0
    }
}

/// A native thread, held by the address of its handle.
#[derive(Clone, Copy, Debug, PartialEq, Eq, Structural)]
pub struct Thread {
    raw: usize,
}

impl Thread {
    #[verifier::type_invariant]
    spec fn nonnull(self) -> bool {
        self.raw != 0
    }

    /// The address of the native handle.
    pub closed spec fn addr(&self) -> usize {
        self.raw
    }

    /// Takes the address of a native handle. A null address names no thread.
    pub fn from_raw(raw: usize) -> (thread: Option<Thread>)
        ensures
            raw == 0 <==> thread is None,
            thread matches Some(t) ==> t.addr() == raw,
    {
        if raw == 0 {
            None
        } else {
            Some(Thread { raw })
        }
    }

    /// Gives the address of the native handle back.
    pub fn as_raw(&self) -> (raw: usize)
        ensures
            raw == self.addr(),
            raw != 0,
    {
        proof {
            use_type_invariant(self);
        }
        self.raw
    }

    /// The identity that [`id`](Thread::id) reports for this thread.
    pub closed spec fn identity(&self) -> ThreadId {
        ThreadId(self.raw)
    }

    /// The identity of this thread.
    pub fn id(&self) -> (id: ThreadId)
        ensures
            id == self.identity(),
            id@ == self.addr(),
    {
        proof {
            use_type_invariant(self);
        }
        ThreadId(self.raw)
    }

    /// Wakes the thread if it waits in [`park`](crate::parking::park).
    ///
    /// Parking only yields the processor, so a parked thread wakes by itself
    /// and there is nothing to do here.
    pub fn unpark(&self) {
    }
}

/// Two handles report the same identity exactly when they are the same
/// handle: threads with different native handles never share an identity, and
/// an address that a later thread receives again gives the old identity again.
pub proof fn lemma_identity_follows_handle(a: Thread, b: Thread)
    ensures
        a.identity() == b.identity() <==> a.addr() == b.addr(),
        a.identity() == b.identity() <==> a == b,
        a.identity()@ == a.addr(),
{
}

/// `origin::thread::current`, with its result turned into a word by
/// `Thread::to_raw_non_null` and `NonNull::addr`: the address of the calling
/// thread's native handle. The conversion yields a non-null pointer or
/// panics, and the handle of a running thread is not null. That the word is
/// not zero is all that is claimed: its value depends on which thread makes
/// the call.
#[verifier::external_body]
fn current_handle_address() -> (raw: usize)
    ensures
        raw != 0,
{
    origin::thread::current().to_raw_non_null().addr().get()
}

/// The thread that makes the call.
pub fn current() -> (thread: Thread)
    ensures
        thread.addr() != 0,
{
    let raw = current_handle_address();
    Thread { raw }
}

/// The identity of the calling thread as a machine word that is never zero,
/// as a lock keyed by thread identity needs it: zero stands for "no owner".
pub fn nonzero_thread_id() -> (word: usize)
    ensures
        word != 0,
{
    current().id().as_usize()
}

} // verus!
