//! Giving up the processor while waiting.

use vstd::prelude::*;

verus! {

/// `rustix::thread::sched_yield`: asks the scheduler to run other threads.
/// The call always succeeds and returns nothing.
#[verifier::external_body]
fn yield_to_scheduler() {
    rustix::thread::sched_yield()
}

/// Suspends the calling thread for one scheduling round.
///
/// A waiter that parks must check its condition again afterwards: parking
/// returns after an unspecified time and promises nothing about other threads.
pub fn park() {
    yield_to_scheduler()
}

/// Parks like [`park`]. The duration is not honoured.
pub fn park_timeout(_time: u64) {
    park()
}

} // verus!
