//! Scopes: regions that return only when the threads started in them are done.
//!
//! A scope counts the threads that were started in it and have not finished
//! their work yet. The count goes up before a thread is created, and down when
//! its work is over or when its creation has failed. The thread that opened
//! the scope polls the count after its own body has returned and leaves only
//! when it reads zero.

use vstd::prelude::*;
use core::marker::PhantomData;
use core::sync::atomic::AtomicUsize;
use core::sync::atomic::Ordering;
use crate::identity::Thread;
use crate::identity::current;
use crate::spawn::spawn_unchecked;
use crate::spawn::Launch;

verus! {

/// A scope to start threads in.
///
/// Threads started in a scope may borrow what outlives the scope, because the
/// scope does not end while one of them is still at work.
pub struct Scope<'scope, 'env: 'scope> {
    main_thread: Thread,
    num_running_threads: AtomicUsize,
    /// Keeps `'scope` from shrinking: a thread started in the scope must not
    /// be handed borrows that end before the scope does.
    scope: PhantomData<&'scope mut &'scope ()>,
    env: PhantomData<&'env mut &'env ()>,
}

/// What the thread that waits for a scope does next.
#[derive(Clone, Copy, Debug, PartialEq, Eq, Structural)]
pub enum WaitStep {
    /// Threads are still at work: park, then look again.
    Park,
    /// No thread is at work: the scope may return.
    Return,
}

/// One look at a scope's count, with the step that follows from it.
#[derive(Clone, Copy, Debug, PartialEq, Eq, Structural)]
pub struct Observation {
    /// The number of threads that had not finished when the count was read.
    pub outstanding: usize,
    /// What the waiting thread does after this look.
    pub step: WaitStep,
}

/// What the end of a thread's work meant for the scope it was started in.
#[derive(Clone, Copy, Debug, PartialEq, Eq, Structural)]
pub enum Completion {
    /// The thread was started outside any scope.
    Unscoped,
    /// The thread took itself off its scope's count.
    Scoped {
        /// The count as it was before this thread left it.
        previous: usize,
        /// Whether the scope's waiting thread was woken.
        woke: bool,
    },
}

/// The step that follows from reading `outstanding` as the count: the scope
/// returns on zero and on nothing else.
pub open spec fn wait_decision(outstanding: usize) -> WaitStep {
    if outstanding == 0 {
        WaitStep::Return
    } else {
        WaitStep::Park
    }
}

/// Whether the thread that found the count at `previous` before leaving it is
/// the one that wakes the waiter: the one that brings the count to zero.
pub open spec fn wakes_waiter(previous: usize) -> bool {
    previous == 1
}

/// Decides what the waiting thread does after reading `outstanding`.
pub fn wait_step(outstanding: usize) -> (step: WaitStep)
    ensures
        step == wait_decision(outstanding),
{
    if outstanding == 0 {
        WaitStep::Return
    } else {
        WaitStep::Park
    }
}

/// Decides whether to wake the waiter after lowering the count from `previous`.
pub fn leaves_scope_empty(previous: usize) -> (wake: bool)
    ensures
        wake == wakes_waiter(previous),
{
    previous == 1
}

impl<'scope, 'env> Scope<'scope, 'env> {
    /// The thread that opened the scope and waits for it.
    pub closed spec fn waiter(&self) -> Thread {
        self.main_thread
    }

    /// Opens a scope that the calling thread will wait for. Its count is zero.
    pub fn new() -> (scope: Self)
        ensures
            scope.waiter().addr() != 0,
    {
        Scope {
            main_thread: current(),
            num_running_threads: AtomicUsize::new(0),
            scope: PhantomData,
            env: PhantomData,
        }
    }

    /// The thread that opened the scope.
    pub fn main_thread(&self) -> (thread: &Thread)
        ensures
            *thread == self.waiter(),
    {
        &self.main_thread
    }

    /// Reads the count once and decides on it.
    ///
    /// The read synchronises with the threads that left the count, so a
    /// caller that gets `Return` sees what their work has written. Other
    /// threads change the count at any time: only the relation between what
    /// was read and the step is promised.
    pub fn poll(&self) -> (seen: Observation)
        ensures
            seen.step == wait_decision(seen.outstanding),
    {
        let outstanding = self.num_running_threads.load(Ordering::Acquire);
        Observation { outstanding, step: wait_step(outstanding) }
    }

    /// Asks for a thread in this scope that runs `f`.
    ///
    /// The thread is put on the scope's count here, before it is created, and
    /// leaves the count when `f` is over. Whether its handle is then joined
    /// or detached makes no difference to the scope, which waits for the
    /// count alone.
    pub fn spawn<F: FnOnce() + Send + 'scope>(&'scope self, f: F) -> (launch: Launch<
        'scope,
        'env,
        F,
    >)
        ensures
            launch.package().work() == f,
            launch.package().scope() == Some(self),
    {
        self.enter();
        spawn_unchecked(f, Some(self))
    }

    /// Puts one more thread on the count. This comes before the thread is
    /// created, so that the count is never read as zero while a thread is on
    /// its way.
    pub(crate) fn enter(&self) {
        self.num_running_threads.fetch_add(1, Ordering::Relaxed);
    }

    /// Takes one thread off the count and wakes the waiter if none is left.
    pub(crate) fn leave(&self) -> (done: Completion)
        ensures
            done matches Completion::Scoped { previous, woke } && woke == wakes_waiter(previous),
    {
        let previous = self.num_running_threads.fetch_sub(1, Ordering::Release);
        let woke = leaves_scope_empty(previous);
        if woke {
            self.main_thread.unpark();
        }
        Completion::Scoped { previous, woke }
    }
}

} // verus!
