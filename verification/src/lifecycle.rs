//! The life of a scope and of the threads started in it, as a state machine.
//!
//! The executable code keeps a scope's count in an atomic word that any
//! thread may change at any time, so no contract can speak of its value. This
//! module says what the count means. It follows one scope through the events
//! that can happen to it and proves what holds whenever the scope returns.

use vstd::prelude::*;
use crate::scope::wait_decision;
use crate::scope::wakes_waiter;
use crate::scope::WaitStep;

verus! {

/// How far one thread of the scope has come.
pub enum Progress {
    /// On the scope's count, but not created yet.
    Pending,
    /// Created and at work.
    Running,
    /// Its work is over and it has left the count.
    Finished,
    /// The native primitive refused to create it; it has left the count.
    Refused,
}

/// What has become of a thread's join handle.
pub enum HandleState {
    /// There is no handle: the thread is not created yet, or never was.
    Absent,
    /// The handle exists and has not been used.
    Live,
    /// The handle was used to join the thread.
    Joined,
    /// The handle was dropped, which detached the thread.
    Detached,
}

/// One thread that the scope was asked to start.
pub struct Member {
    pub progress: Progress,
    pub handle: HandleState,
}

/// Where the scope itself stands.
pub enum Phase {
    /// The body of the scope is running.
    Open,
    /// The body has returned and the opening thread waits for the count.
    Draining,
    /// The opening thread has read the count as zero and the scope has returned.
    Closed,
}

/// A scope with every thread it was ever asked to start.
pub struct Region {
    pub members: Seq<Member>,
    /// The value of the scope's count.
    pub count: nat,
    pub phase: Phase,
}

/// What can happen to a scope. The number in an event picks a member.
pub enum Event {
    /// A thread is put on the count, ahead of its creation: the first step
    /// of `Scope::spawn`.
    Enter,
    /// The native primitive has created the member's thread:
    /// `Ticket::conclude` with a thread.
    Created(int),
    /// The native primitive has refused to create the member's thread:
    /// `Ticket::conclude` with an error number.
    Refused(int),
    /// The member's work is over: the end of `Package::run`.
    Finish(int),
    /// The member's handle is joined: `JoinHandle::join`, carried out.
    Join(int),
    /// The member's handle is dropped: `JoinHandle::detach`, carried out.
    Detach(int),
    /// The body of the scope returns.
    BodyReturns,
    /// The opening thread reads the count: `Scope::poll`.
    Poll,
}

/// The number of threads that `events` put on the count.
pub open spec fn entries(events: Seq<Event>) -> nat
    decreases events.len(),
{
    if events.len() == 0 {
        0
    } else {
        entries(events.drop_last()) + if events.last() is Enter {
            1nat
        } else {
            0nat
        }
    }
}

impl Member {
    /// Whether the member is on the scope's count.
    pub open spec fn counted(self) -> bool {
        self.progress is Pending || self.progress is Running
    }
}

/// The number of members that are on the count.
pub open spec fn counted_members(members: Seq<Member>) -> nat
    decreases members.len(),
{
    if members.len() == 0 {
        0
    } else {
        counted_members(members.drop_last()) + if members.last().counted() {
            1nat
        } else {
            0nat
        }
    }
}

impl Region {
    /// A scope that has just been opened.
    pub open spec fn opened() -> Region {
        Region { members: Seq::empty(), count: 0, phase: Phase::Open }
    }

    /// Whether `i` picks a member.
    pub open spec fn has(self, i: int) -> bool {
        0 <= i < self.members.len()
    }

    /// Whether some thread exists that could ask the scope for another one:
    /// the body of the scope, or a thread of the scope that is at work.
    pub open spec fn has_spawner(self) -> bool {
        self.phase is Open || exists|i: int| self.has(i) && (#[trigger] self.members[i]).progress is Running
    }

    /// Whether `event` can happen now.
    pub open spec fn enabled(self, event: Event) -> bool {
        match event {
            Event::Enter => !(self.phase is Closed) && self.has_spawner() && self.count < usize::MAX,
            Event::Created(i) => self.has(i) && self.members[i].progress is Pending,
            Event::Refused(i) => self.has(i) && self.members[i].progress is Pending,
            Event::Finish(i) => self.has(i) && self.members[i].progress is Running,
            // Joining waits for the thread to terminate.
            Event::Join(i) => self.has(i) && self.members[i].handle is Live
                && self.members[i].progress is Finished,
            // Dropping a handle waits for nothing.
            Event::Detach(i) => self.has(i) && self.members[i].handle is Live,
            Event::BodyReturns => self.phase is Open,
            Event::Poll => self.phase is Draining,
        }
    }

    /// The scope with member `i` replaced.
    pub open spec fn with_member(self, i: int, member: Member) -> Region {
        Region { members: self.members.update(i, member), ..self }
    }

    /// The scope after `event`.
    pub open spec fn next(self, event: Event) -> Region {
        match event {
            Event::Enter => Region {
                members: self.members.push(
                    Member { progress: Progress::Pending, handle: HandleState::Absent },
                ),
                count: self.count + 1,
                phase: self.phase,
            },
            Event::Created(i) => self.with_member(
                i,
                Member { progress: Progress::Running, handle: HandleState::Live },
            ),
            Event::Refused(i) => Region {
                count: (self.count - 1) as nat,
                ..self.with_member(
                    i,
                    Member { progress: Progress::Refused, handle: HandleState::Absent },
                )
            },
            Event::Finish(i) => Region {
                count: (self.count - 1) as nat,
                ..self.with_member(
                    i,
                    Member { progress: Progress::Finished, handle: self.members[i].handle },
                )
            },
            Event::Join(i) => self.with_member(
                i,
                Member { progress: self.members[i].progress, handle: HandleState::Joined },
            ),
            Event::Detach(i) => self.with_member(
                i,
                Member { progress: self.members[i].progress, handle: HandleState::Detached },
            ),
            Event::BodyReturns => Region { phase: Phase::Draining, ..self },
            Event::Poll => if wait_decision(self.count as usize) == WaitStep::Return {
                Region { phase: Phase::Closed, ..self }
            } else {
                self
            },
        }
    }

    /// The scope after `events`, taken in order.
    pub open spec fn after(self, events: Seq<Event>) -> Region
        decreases events.len(),
    {
        if events.len() == 0 {
            self
        } else {
            self.after(events.drop_last()).next(events.last())
        }
    }

    /// Whether `events` can happen in this order, starting here.
    pub open spec fn admits(self, events: Seq<Event>) -> bool
        decreases events.len(),
    {
        events.len() == 0 || (self.admits(events.drop_last()) && self.after(
            events.drop_last(),
        ).enabled(events.last()))
    }

    /// What always holds of a scope: the count is the number of members that
    /// are pending or at work, it fits the word that holds it, and a scope
    /// that has returned has nobody on its count.
    pub open spec fn consistent(self) -> bool {
        &&& self.count == counted_members(self.members)
        &&& self.count <= usize::MAX
        &&& self.phase is Closed ==> self.count == 0
    }

    /// Whether every thread of the scope that was created has finished its
    /// work, and none is still to be created.
    pub open spec fn all_work_done(self) -> bool {
        forall|i: int| self.has(i) ==> !(#[trigger] self.members[i]).counted()
    }
}

/// Adding a member adds it to the number of counted members if it is counted.
proof fn lemma_counted_push(members: Seq<Member>, member: Member)
    ensures
        counted_members(members.push(member)) == counted_members(members) + if member.counted() {
            1nat
        } else {
            0nat
        },
{
    assert(members.push(member).drop_last() =~= members);
}

/// Replacing a member changes the number of counted members by what the old
/// and the new member contribute.
proof fn lemma_counted_update(members: Seq<Member>, i: int, member: Member)
    requires
        0 <= i < members.len(),
    ensures
        counted_members(members.update(i, member)) + (if members[i].counted() {
            1nat
        } else {
            0nat
        }) == counted_members(members) + if member.counted() {
            1nat
        } else {
            0nat
        },
    decreases members.len(),
{
    let updated = members.update(i, member);
    if i == members.len() - 1 {
        assert(updated.drop_last() =~= members.drop_last());
    } else {
        lemma_counted_update(members.drop_last(), i, member);
        assert(updated.drop_last() =~= members.drop_last().update(i, member));
    }
}

/// A counted member makes the number of counted members positive.
proof fn lemma_counted_positive(members: Seq<Member>, i: int)
    requires
        0 <= i < members.len(),
        members[i].counted(),
    ensures
        counted_members(members) > 0,
    decreases members.len(),
{
    if i < members.len() - 1 {
        lemma_counted_positive(members.drop_last(), i);
    }
}

/// No event that can happen breaks what always holds of a scope.
pub proof fn lemma_step_keeps_consistent(region: Region, event: Event)
    requires
        region.consistent(),
        region.enabled(event),
    ensures
        region.next(event).consistent(),
{
    match event {
        Event::Enter => {
            lemma_counted_push(
                region.members,
                Member { progress: Progress::Pending, handle: HandleState::Absent },
            );
        },
        Event::Created(i) => {
            lemma_counted_update(
                region.members,
                i,
                Member { progress: Progress::Running, handle: HandleState::Live },
            );
            lemma_counted_positive(region.members, i);
        },
        Event::Refused(i) => {
            lemma_counted_update(
                region.members,
                i,
                Member { progress: Progress::Refused, handle: HandleState::Absent },
            );
            lemma_counted_positive(region.members, i);
        },
        Event::Finish(i) => {
            lemma_counted_update(
                region.members,
                i,
                Member { progress: Progress::Finished, handle: region.members[i].handle },
            );
            lemma_counted_positive(region.members, i);
        },
        Event::Join(i) => {
            lemma_counted_update(
                region.members,
                i,
                Member { progress: region.members[i].progress, handle: HandleState::Joined },
            );
        },
        Event::Detach(i) => {
            lemma_counted_update(
                region.members,
                i,
                Member { progress: region.members[i].progress, handle: HandleState::Detached },
            );
        },
        Event::BodyReturns => {},
        Event::Poll => {},
    }
}

/// Whatever has happened to a scope since it was opened, its count is the
/// number of its threads that are pending or at work.
pub proof fn lemma_always_consistent(events: Seq<Event>)
    requires
        Region::opened().admits(events),
    ensures
        Region::opened().after(events).consistent(),
    decreases events.len(),
{
    if events.len() > 0 {
        lemma_always_consistent(events.drop_last());
        lemma_step_keeps_consistent(Region::opened().after(events.drop_last()), events.last());
    }
}

/// A consistent scope whose count is zero has no thread that is pending or
/// at work.
pub proof fn lemma_zero_count_means_done(region: Region)
    requires
        region.consistent(),
        region.count == 0,
    ensures
        region.all_work_done(),
{
    assert forall|i: int| region.has(i) implies !(#[trigger] region.members[i]).counted() by {
        if region.members[i].counted() {
            lemma_counted_positive(region.members, i);
        }
    }
}

/// A scope has one member for each thread that was put on its count, and
/// never loses one.
pub proof fn lemma_one_member_per_entry(events: Seq<Event>)
    requires
        Region::opened().admits(events),
    ensures
        Region::opened().after(events).members.len() == entries(events),
    decreases events.len(),
{
    if events.len() > 0 {
        lemma_one_member_per_entry(events.drop_last());
    }
}

/// A scope returns only after the work of every thread started in it is
/// over: whatever the events were, and whether the handles were joined,
/// dropped or kept, a scope that has returned has a member for each of the
/// threads it was asked for, and none of them is at work or still to be
/// created.
pub proof fn lemma_scope_returns_after_all_work(events: Seq<Event>)
    requires
        Region::opened().admits(events),
        Region::opened().after(events).phase is Closed,
    ensures
        Region::opened().after(events).members.len() == entries(events),
        Region::opened().after(events).all_work_done(),
        Region::opened().after(events).count == 0,
{
    lemma_always_consistent(events);
    lemma_one_member_per_entry(events);
    lemma_zero_count_means_done(Region::opened().after(events));
}

/// The opening thread leaves on the count alone: when it reads the count
/// after the body has returned, the scope returns exactly if no thread is
/// pending or at work. The handles play no part in it.
pub proof fn lemma_poll_returns_iff_done(region: Region)
    requires
        region.consistent(),
        region.phase is Draining,
    ensures
        region.next(Event::Poll).phase is Closed <==> region.all_work_done(),
        region.next(Event::Poll).members == region.members,
        region.next(Event::Poll).count == region.count,
{
    if region.count == 0 {
        lemma_zero_count_means_done(region);
    } else {
        assert(region.count as usize != 0);
        if region.all_work_done() {
            lemma_all_done_means_zero(region.members);
        }
    }
}

/// Where no member is counted, the number of counted members is zero.
proof fn lemma_all_done_means_zero(members: Seq<Member>)
    requires
        forall|i: int| 0 <= i < members.len() ==> !(#[trigger] members[i]).counted(),
    ensures
        counted_members(members) == 0,
    decreases members.len(),
{
    if members.len() > 0 {
        assert forall|i: int| 0 <= i < members.drop_last().len() implies !(
        #[trigger] members.drop_last()[i]).counted() by {
            assert(members.drop_last()[i] == members[i]);
        }
        lemma_all_done_means_zero(members.drop_last());
        assert(!members[members.len() - 1].counted());
    }
}

/// Once the body has returned and the count is zero, nobody is left who
/// could start a thread: the count stays at zero until the scope returns.
pub proof fn lemma_drained_scope_stays_empty(region: Region)
    requires
        region.consistent(),
        region.phase is Draining,
        region.count == 0,
    ensures
        !region.enabled(Event::Enter),
        forall|i: int| !region.enabled(Event::Created(i)),
        forall|i: int| !region.enabled(Event::Finish(i)),
        forall|i: int| !region.enabled(Event::Refused(i)),
{
    lemma_zero_count_means_done(region);
    assert forall|i: int| !region.enabled(Event::Created(i)) by {
        if region.has(i) {
            assert(!region.members[i].counted());
        }
    }
    assert forall|i: int| !region.enabled(Event::Finish(i)) by {
        if region.has(i) {
            assert(!region.members[i].counted());
        }
    }
    assert forall|i: int| !region.enabled(Event::Refused(i)) by {
        if region.has(i) {
            assert(!region.members[i].counted());
        }
    }
    if region.has_spawner() {
        let i = choose|i: int| region.has(i) && (#[trigger] region.members[i]).progress is Running;
        assert(region.members[i].counted());
    }
}

/// A thread that ends its work wakes the opening thread exactly if it
/// brings the count to zero.
pub proof fn lemma_last_thread_wakes_waiter(region: Region, i: int)
    requires
        region.consistent(),
        region.enabled(Event::Finish(i)),
    ensures
        region.count > 0,
        wakes_waiter(region.count as usize) <==> region.next(Event::Finish(i)).count == 0,
{
    lemma_counted_positive(region.members, i);
}

/// Dropping a live handle never waits: it can happen at once, whether the
/// thread is at work or has finished. It changes nothing but the handle, so
/// the thread stays on the scope's count and its work can still come to its
/// end.
pub proof fn lemma_detach_never_blocks(region: Region, i: int)
    requires
        region.has(i),
        region.members[i].handle is Live,
    ensures
        region.enabled(Event::Detach(i)),
        region.next(Event::Detach(i)).count == region.count,
        region.next(Event::Detach(i)).phase == region.phase,
        region.next(Event::Detach(i)).members.len() == region.members.len(),
        forall|j: int|
            region.has(j) ==> (#[trigger] region.next(Event::Detach(i)).members[j]).progress
                == region.members[j].progress,
        region.enabled(Event::Finish(i)) ==> region.next(Event::Detach(i)).enabled(
            Event::Finish(i),
        ),
{
}

/// Joining returns only when the thread's work is over, and leaves the
/// scope's count as it was.
pub proof fn lemma_join_waits_for_work(region: Region, i: int)
    requires
        region.enabled(Event::Join(i)),
    ensures
        region.members[i].progress is Finished,
        region.next(Event::Join(i)).count == region.count,
{
}

} // verus!
