//! Repairing the standard descriptors at start-up.
//!
//! A process may be started with descriptor 0, 1 or 2 closed. Whatever it
//! opens next would then land on a standard descriptor and be taken for
//! standard input, output or error. The repair looks at the three
//! descriptors in rising order and opens the null device for each one that
//! is closed.
//!
//! This module decides; the caller performs. [`Repair::start`] and
//! [`Repair::step`] name the next thing to do, and the caller reports how it
//! went.

use vstd::prelude::*;

verus! {

/// The number of standard descriptors: 0, 1 and 2.
pub const STANDARD_DESCRIPTORS: i32 = 3;

/// What looking at a descriptor showed.
#[derive(Clone, Copy, Debug, PartialEq, Eq, Structural)]
pub enum Probe {
    /// The descriptor is open.
    Open,
    /// The descriptor is closed: the system did not know it.
    Closed,
    /// The system gave another error. The descriptor is left alone.
    Unknown,
}

/// What the caller reports back.
#[derive(Clone, Copy, Debug, PartialEq, Eq, Structural)]
pub enum Event {
    /// The descriptor has been looked at.
    Probed(Probe),
    /// The null device has been opened, on the descriptor given.
    Opened(i32),
    /// The null device could not be opened; the error number is given.
    OpenFailed(i32),
}

/// What the caller is to do next.
#[derive(Clone, Copy, Debug, PartialEq, Eq, Structural)]
pub enum Action {
    /// Look at this descriptor and report `Probed`.
    Probe(i32),
    /// Open the null device for reading and writing, keep it open, and
    /// report `Opened` or `OpenFailed`.
    OpenNullDevice,
    /// The repair is over.
    Finish,
    /// The repair cannot go on; the error number is given.
    Abort(i32),
}

/// How far the repair has come.
#[derive(Clone, Copy, Debug, PartialEq, Eq, Structural)]
pub enum Repair {
    /// The descriptor given is being looked at.
    Probing(i32),
    /// The descriptor given was found closed and the null device is being
    /// opened for it.
    Opening(i32),
    /// All standard descriptors have been seen to.
    Done,
    /// Opening the null device failed with the error number given.
    Aborted(i32),
}

impl Repair {
    /// The repair at its beginning.
    pub open spec fn initial() -> Repair {
        Repair::Probing(0)
    }

    /// The state that follows once descriptor `fd` has been seen to: the next
    /// standard descriptor, or the end.
    pub open spec fn past(fd: i32) -> Repair {
        if 0 <= fd && fd + 1 < STANDARD_DESCRIPTORS {
            Repair::Probing((fd + 1) as i32)
        } else {
            Repair::Done
        }
    }

    /// What the caller is to do in this state.
    pub open spec fn pending(self) -> Action {
        match self {
            Repair::Probing(fd) => Action::Probe(fd),
            Repair::Opening(_) => Action::OpenNullDevice,
            Repair::Done => Action::Finish,
            Repair::Aborted(errno) => Action::Abort(errno),
        }
    }

    /// The state after `event`. Only a closed descriptor has the null device
    /// opened for it. A report that does not answer what was asked changes
    /// nothing.
    pub open spec fn after(self, event: Event) -> Repair {
        match (self, event) {
            (Repair::Probing(fd), Event::Probed(Probe::Closed)) => Repair::Opening(fd),
            (Repair::Probing(fd), Event::Probed(_)) => Repair::past(fd),
            (Repair::Opening(fd), Event::Opened(_)) => Repair::past(fd),
            (Repair::Opening(_), Event::OpenFailed(errno)) => Repair::Aborted(errno),
            _ => self,
        }
    }

    /// Begins the repair: the first thing to do is to look at descriptor 0.
    pub fn start() -> (begin: (Repair, Action))
        ensures
            begin.0 == Repair::initial(),
            begin.1 == Action::Probe(0),
    {
        (Repair::Probing(0), Action::Probe(0))
    }

    /// Names what the caller is to do in this state.
    pub fn action(&self) -> (action: Action)
        ensures
            action == self.pending(),
    {
        match self {
            Repair::Probing(fd) => Action::Probe(*fd),
            Repair::Opening(_) => Action::OpenNullDevice,
            Repair::Done => Action::Finish,
            Repair::Aborted(errno) => Action::Abort(*errno),
        }
    }

    /// Takes the caller's report and names the next thing to do.
    pub fn step(self, event: Event) -> (then: (Repair, Action))
        ensures
            then.0 == self.after(event),
            then.1 == then.0.pending(),
    {
        let next = match self {
            Repair::Probing(fd) => match event {
                Event::Probed(Probe::Closed) => Repair::Opening(fd),
                Event::Probed(_) => Self::advance(fd),
                _ => self,
            },
            Repair::Opening(fd) => match event {
                Event::Opened(_) => Self::advance(fd),
                Event::OpenFailed(errno) => Repair::Aborted(errno),
                _ => self,
            },
            _ => self,
        };
        let action = next.action();
        (next, action)
    }

    /// Moves on from descriptor `fd`.
    fn advance(fd: i32) -> (next: Repair)
        ensures
            next == Repair::past(fd),
    {
        if 0 <= fd && fd < STANDARD_DESCRIPTORS - 1 {
            Repair::Probing(fd + 1)
        } else {
            Repair::Done
        }
    }
}

/// Whether `fd` is the descriptor that the system gives to the next file
/// opened, when the descriptors in `open` are taken: the lowest free one.
pub open spec fn is_lowest_free(open: Set<int>, fd: int) -> bool {
    &&& 0 <= fd
    &&& !open.contains(fd)
    &&& forall|lower: int| 0 <= lower < fd ==> open.contains(lower)
}

/// The descriptor that the system gives to the next file opened.
pub open spec fn lowest_free(open: Set<int>) -> int {
    choose|fd: int| is_lowest_free(open, fd)
}

/// What a system with the descriptors in `open` taken reports when it is
/// asked to do what `state` calls for, and never fails to open the null
/// device.
pub open spec fn report(state: Repair, open: Set<int>) -> Event {
    match state {
        Repair::Probing(fd) => Event::Probed(
            if open.contains(fd as int) {
                Probe::Open
            } else {
                Probe::Closed
            },
        ),
        _ => Event::Opened(lowest_free(open) as i32),
    }
}

/// The descriptors that are taken once the system has done what `state`
/// calls for.
pub open spec fn taken(state: Repair, open: Set<int>) -> Set<int> {
    match state {
        Repair::Opening(_) => open.insert(lowest_free(open)),
        _ => open,
    }
}

/// The repair and the descriptors after at most `rounds` exchanges between
/// the repair and such a system.
pub open spec fn run(state: Repair, open: Set<int>, rounds: nat) -> (Repair, Set<int>)
    decreases rounds,
{
    if rounds == 0 || state is Done || state is Aborted {
        (state, open)
    } else {
        run(state.after(report(state, open)), taken(state, open), (rounds - 1) as nat)
    }
}

/// Where every descriptor below `fd` is taken and `fd` is not, the system
/// opens the next file on `fd`.
proof fn lemma_lowest_free(open: Set<int>, fd: int)
    requires
        is_lowest_free(open, fd),
    ensures
        lowest_free(open) == fd,
{
    let chosen = lowest_free(open);
    assert(is_lowest_free(open, chosen));
    if chosen < fd {
        assert(open.contains(chosen));
    } else if fd < chosen {
        assert(open.contains(fd));
    }
}

/// Seeing to one descriptor, with all lower ones open, leaves it open too
/// and touches no other.
proof fn lemma_seen_to(open: Set<int>, fd: i32, rounds: nat)
    requires
        0 <= fd < STANDARD_DESCRIPTORS,
        forall|lower: int| 0 <= lower < fd ==> open.contains(lower),
        rounds >= 2,
    ensures
        run(Repair::Probing(fd), open, rounds) == run(
            Repair::past(fd),
            open.insert(fd as int),
            if open.contains(fd as int) {
                (rounds - 1) as nat
            } else {
                (rounds - 2) as nat
            },
        ),
{
    if open.contains(fd as int) {
        assert(open.insert(fd as int) =~= open);
    } else {
        lemma_lowest_free(open, fd as int);
        let opening = Repair::Opening(fd);
        assert(run(Repair::Probing(fd), open, rounds) == run(opening, open, (rounds - 1) as nat));
        assert(run(opening, open, (rounds - 1) as nat) == run(
            Repair::past(fd),
            open.insert(fd as int),
            (rounds - 2) as nat,
        ));
    }
}

/// The repair does its job. On a system that opens each file on the lowest
/// free descriptor, and whatever descriptors are taken at the start, the
/// repair comes to its end within six exchanges. Descriptors 0, 1 and 2 are
/// then open, and every other descriptor is as it was.
pub proof fn lemma_repair_opens_standard_descriptors(open: Set<int>)
    ensures
        run(Repair::initial(), open, 6).0 == Repair::Done,
        run(Repair::initial(), open, 6).1 == open.insert(0).insert(1).insert(2),
{
    let first = open.insert(0);
    let second = first.insert(1);
    let third = second.insert(2);
    let left_first: nat = if open.contains(0) {
        5
    } else {
        4
    };
    let left_second: nat = if first.contains(1) {
        (left_first - 1) as nat
    } else {
        (left_first - 2) as nat
    };
    let left_third: nat = if second.contains(2) {
        (left_second - 1) as nat
    } else {
        (left_second - 2) as nat
    };
    lemma_seen_to(open, 0, 6);
    lemma_seen_to(first, 1, left_first);
    lemma_seen_to(second, 2, left_second);
    assert(Repair::past(0) == Repair::Probing(1));
    assert(Repair::past(1) == Repair::Probing(2));
    assert(Repair::past(2) == Repair::Done);
    assert(run(Repair::Done, third, left_third) == (Repair::Done, third));
}

} // verus!
