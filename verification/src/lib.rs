//! Thread lifecycle and scoped concurrency over a native thread primitive.
//!
//! The crate holds the decisions of the thread runtime: how a unit of work is
//! packaged for a new thread, how a scope accounts for the threads it started
//! and when it may return, which thread may enter a reentrant lock, and how
//! the standard descriptors are repaired at start-up. Creating, joining and
//! detaching native threads is left to the caller, who performs what the
//! functions here hand back.

pub mod identity;
pub mod lifecycle;
pub mod parking;
pub mod reentrant;
pub mod scope;
pub mod spawn;
pub mod stdio;

pub use crate::identity::{current, nonzero_thread_id, Thread, ThreadId};
pub use crate::parking::{park, park_timeout};
pub use crate::scope::{Completion, Observation, Scope, WaitStep};
pub use crate::spawn::{spawn, spawn_unchecked, Disposal, JoinHandle, Launch, Package, SpawnError, Ticket};
pub use crate::reentrant::{Acquire, LockState, Release};
pub use crate::stdio::{Action, Event, Probe, Repair};
