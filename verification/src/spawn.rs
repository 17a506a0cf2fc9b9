//! Starting threads, and what becomes of their handles.
//!
//! Nothing here creates a native thread. [`spawn`] and its relatives say what
//! to ask of the native primitive: a [`Package`] to run on the new thread,
//! with the stack and guard sizes to give it. The caller creates the thread,
//! lets it run the package, and reports how the creation went on the
//! [`Ticket`], which answers with a [`JoinHandle`] or with the error. A join
//! handle is used up once, by [`JoinHandle::join`] or by
//! [`JoinHandle::detach`], and names the native operation that this calls for.

use vstd::prelude::*;
use core::marker::PhantomData;
use crate::identity::Thread;
use crate::scope::wakes_waiter;
use crate::scope::Completion;
use crate::scope::Scope;

verus! {

/// A unit of work on its way to a new thread, with the scope to notify when
/// the work is over.
///
/// The package owns the work. Whoever runs it gives it up, so the work runs
/// once at most, and the thread that made the package keeps nothing of it.
pub struct Package<'scope, 'env, F> {
    work: F,
    scope: Option<&'scope Scope<'scope, 'env>>,
}

/// The claim to a thread whose creation has been asked for. Reporting how the
/// creation went turns it into a join handle or an error.
pub struct Ticket<'scope, 'env> {
    scope: Option<&'scope Scope<'scope, 'env>>,
}

/// What to ask of the native primitive in order to start one thread.
pub struct Launch<'scope, 'env, F> {
    package: Package<'scope, 'env, F>,
    stack_size: usize,
    guard_size: usize,
}

/// The native primitive could not create a thread.
#[derive(Clone, Copy, Debug, PartialEq, Eq, Structural)]
pub struct SpawnError {
    /// The error number that the primitive reported.
    pub errno: i32,
}

/// The native operation that ends the life of a join handle.
#[derive(Clone, Copy, Debug, PartialEq, Eq, Structural)]
pub enum Disposal {
    /// Wait until the thread has terminated, then reclaim it. This blocks.
    Join(Thread),
    /// Let the thread run on by itself; it is reclaimed when it terminates.
    /// This does not block.
    Detach(Thread),
}

/// The one owner of a started thread.
///
/// A handle is live until it is given to [`join`](JoinHandle::join) or to
/// [`detach`](JoinHandle::detach). Either call takes the handle, so exactly
/// one of the two happens to a thread.
pub struct JoinHandle<'scope> {
    /// The thread that this handle owns.
    pub thread: Thread,
    _marker: PhantomData<&'scope ()>,
}

impl<'scope, 'env, F: FnOnce() + Send> Package<'scope, 'env, F> {
    /// The work that the package carries.
    pub closed spec fn work(&self) -> F {
        self.work
    }

    /// The scope that is notified when the work is over, if there is one.
    pub closed spec fn scope(&self) -> Option<&'scope Scope<'scope, 'env>> {
        self.scope
    }

    /// Runs the work, then takes the thread off the count of its scope and
    /// wakes the scope's waiter if this was the last thread on it.
    ///
    /// This is what the new thread does, from its first step to its last.
    pub fn run(self) -> (done: Completion)
        requires
            call_requires(self.work(), ()),
        ensures
            call_ensures(self.work(), (), ()),
            self.scope() is None <==> done == Completion::Unscoped,
            self.scope() is Some ==> (done matches Completion::Scoped { previous, woke }
                && woke == wakes_waiter(previous)),
    {
        let work = self.work;
        work();
        match self.scope {
            Some(scope) => scope.leave(),
            None => Completion::Unscoped,
        }
    }
}

impl<'scope, 'env> Ticket<'scope, 'env> {
    /// The scope that counts the thread, if there is one.
    pub closed spec fn scope(&self) -> Option<&'scope Scope<'scope, 'env>> {
        self.scope
    }

    /// Takes the report of the native primitive: the thread it created, or
    /// its error number.
    ///
    /// A created thread gets its handle. A refusal is handed on as an error;
    /// the thread that never came to be is taken off the count of its scope
    /// first, so that the scope does not wait for it.
    pub fn conclude(self, created: Result<Thread, i32>) -> (outcome: Result<
        JoinHandle<'scope>,
        SpawnError,
    >)
        ensures
            match created {
                Ok(thread) => outcome matches Ok(handle) && handle.owned() == thread,
                Err(errno) => outcome matches Err(error) && error == (SpawnError { errno }),
            },
    {
        match created {
            Ok(thread) => Ok(JoinHandle { thread, _marker: PhantomData }),
            Err(errno) => {
                match self.scope {
                    Some(scope) => {
                        let _ = scope.leave();
                    },
                    None => {},
                }
                Err(SpawnError { errno })
            },
        }
    }
}

impl<'scope, 'env, F: FnOnce() + Send> Launch<'scope, 'env, F> {
    /// The package that the new thread is to run.
    pub closed spec fn package(&self) -> Package<'scope, 'env, F> {
        self.package
    }

    /// The stack size asked for, in bytes.
    pub closed spec fn stack(&self) -> usize {
        self.stack_size
    }

    /// The guard size asked for, in bytes.
    pub closed spec fn guard(&self) -> usize {
        self.guard_size
    }

    /// Puts a request together from its parts.
    pub fn with_sizes(
        work: F,
        scope: Option<&'scope Scope<'scope, 'env>>,
        stack_size: usize,
        guard_size: usize,
    ) -> (launch: Self)
        ensures
            launch.package().work() == work,
            launch.package().scope() == scope,
            launch.stack() == stack_size,
            launch.guard() == guard_size,
    {
        Launch { package: Package { work, scope }, stack_size, guard_size }
    }

    /// The size of the stack that the new thread is to get, in bytes.
    pub fn stack_size(&self) -> (bytes: usize)
        ensures
            bytes == self.stack(),
    {
        self.stack_size
    }

    /// The size of the guard area below the new thread's stack, in bytes.
    pub fn guard_size(&self) -> (bytes: usize)
        ensures
            bytes == self.guard(),
    {
        self.guard_size
    }

    /// Splits the request into the package, which moves to the new thread,
    /// and the ticket, which stays with the thread that asked.
    pub fn into_parts(self) -> (parts: (Package<'scope, 'env, F>, Ticket<'scope, 'env>))
        ensures
            parts.0 == self.package(),
            parts.1.scope() == self.package().scope(),
    {
        let ticket = Ticket { scope: self.package.scope };
        (self.package, ticket)
    }
}

impl<'scope> JoinHandle<'scope> {
    /// The thread that the handle owns.
    pub closed spec fn owned(&self) -> Thread {
        self.thread
    }

    /// Ends the handle by waiting: the caller is to join the thread, which
    /// blocks until the thread has terminated and then reclaims it.
    ///
    /// A failure inside the thread's work is not recorded anywhere, so
    /// joining has no error to report.
    pub fn join(self) -> (disposal: Disposal)
        ensures
            disposal == Disposal::Join(self.owned()),
    {
        Disposal::Join(self.thread)
    }

    /// Ends the handle without waiting: the caller is to detach the thread,
    /// which goes on running and is reclaimed when it terminates. This is
    /// what dropping a live handle means.
    pub fn detach(self) -> (disposal: Disposal)
        ensures
            disposal == Disposal::Detach(self.owned()),
    {
        Disposal::Detach(self.thread)
    }
}

/// `origin::thread::default_stack_size`: the stack size that the platform
/// gives a new thread by default. Nothing is claimed of the number; it is read
/// from the attributes of the calling thread, and the call panics if the
/// platform cannot give them.
#[verifier::external_body]
fn default_stack_size() -> usize {
    origin::thread::default_stack_size()
}

/// `origin::thread::default_guard_size`: the guard size that the platform
/// gives a new thread by default. Nothing is claimed of the number; it is read
/// from the attributes of the calling thread, and the call panics if the
/// platform cannot give them.
#[verifier::external_body]
fn default_guard_size() -> usize {
    origin::thread::default_guard_size()
}

/// Asks for a thread that runs `f`, with the platform's default stack and
/// guard sizes. With a scope, the thread reports to it when `f` is over; the
/// caller must have put the thread on the scope's count already, as
/// [`Scope::spawn`] does.
pub fn spawn_unchecked<'scope, 'env, F: FnOnce() + Send>(
    f: F,
    scope: Option<&'scope Scope<'scope, 'env>>,
) -> (launch: Launch<'scope, 'env, F>)
    ensures
        launch.package().work() == f,
        launch.package().scope() == scope,
{
    let stack_size = default_stack_size();
    let guard_size = default_guard_size();
    Launch::with_sizes(f, scope, stack_size, guard_size)
}

/// Asks for a thread that runs `f` outside any scope.
pub fn spawn<F: FnOnce() + Send + 'static>(f: F) -> (launch: Launch<'static, 'static, F>)
    ensures
        launch.package().work() == f,
        launch.package().scope() is None,
{
    spawn_unchecked(f, None)
}

} // verus!
