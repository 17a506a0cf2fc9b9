//! Who holds a reentrant lock, and how deeply.
//!
//! A reentrant lock is an ordinary blocking lock together with the identity
//! of the thread that holds it and the number of times that thread has
//! entered. This module keeps the last two. Before a thread blocks on the
//! inner lock it asks here: the holder enters again without touching the
//! inner lock, anybody else has to wait until the holder has left as often
//! as it entered.

use vstd::prelude::*;
use crate::identity::ThreadId;

verus! {

/// The holder of a lock and the number of its nested holds, as mathematics.
pub struct Hold {
    /// The thread that holds the lock, if one does.
    pub owner: Option<ThreadId>,
    /// How many times the owner has entered and not left.
    pub depth: nat,
}

impl Hold {
    /// A lock that nobody holds.
    pub open spec fn free() -> Hold {
        Hold { owner: None, depth: 0 }
    }

    /// A lock has an owner exactly while its depth is above zero.
    pub open spec fn wf(self) -> bool {
        self.owner is None <==> self.depth == 0
    }

    /// Whether `caller` may enter without waiting: the lock is free, or
    /// `caller` holds it already.
    pub open spec fn admits(self, caller: ThreadId) -> bool {
        self.owner is None || self.owner == Some(caller)
    }

    /// The lock after `caller` has entered once more.
    pub open spec fn entered(self, caller: ThreadId) -> Hold {
        Hold { owner: Some(caller), depth: self.depth + 1 }
    }

    /// The lock after its owner has left once: free when that was the last
    /// hold, held one level less deeply otherwise.
    pub open spec fn left(self) -> Hold {
        if self.depth <= 1 {
            Hold::free()
        } else {
            Hold { owner: self.owner, depth: (self.depth - 1) as nat }
        }
    }

    /// The lock after `caller` has entered `times` times in a row.
    pub open spec fn entered_times(self, caller: ThreadId, times: nat) -> Hold
        decreases times,
    {
        if times == 0 {
            self
        } else {
            self.entered_times(caller, (times - 1) as nat).entered(caller)
        }
    }

    /// The lock after its owner has left `times` times in a row.
    pub open spec fn left_times(self, times: nat) -> Hold
        decreases times,
    {
        if times == 0 {
            self
        } else {
            self.left_times((times - 1) as nat).left()
        }
    }
}

/// How an attempt to enter the lock went.
#[derive(Clone, Copy, Debug, PartialEq, Eq, Structural)]
pub enum Acquire {
    /// The lock was free. The caller takes the inner lock and holds it once.
    Acquired,
    /// The caller held the lock already and holds it once more. The inner
    /// lock is not touched.
    Reentered,
    /// Another thread holds the lock. The caller has to wait for the inner
    /// lock and ask again.
    Busy,
    /// The caller holds the lock as deeply as can be counted.
    TooDeep,
}

/// How an attempt to leave the lock went.
#[derive(Clone, Copy, Debug, PartialEq, Eq, Structural)]
pub enum Release {
    /// The caller has left for the last time. The lock is free and the
    /// caller gives up the inner lock.
    Unlocked,
    /// The caller has left once and still holds the lock.
    StillHeld,
    /// The caller does not hold the lock. Nothing has changed.
    NotOwner,
}

/// The holder of a reentrant lock and the depth of its hold.
pub struct LockState {
    owner: Option<ThreadId>,
    depth: usize,
}

impl View for LockState {
    type V = Hold;

    closed spec fn view(&self) -> Hold {
        Hold { owner: self.owner, depth: self.depth as nat }
    }
}

impl LockState {
    #[verifier::type_invariant]
    spec fn owned_while_held(self) -> bool {
        self.owner is None <==> self.depth == 0
    }

    /// A lock that nobody holds.
    pub fn new() -> (state: Self)
        ensures
            state@ == Hold::free(),
    {
        LockState { owner: None, depth: 0 }
    }

    /// A lock that `owner` holds `depth` levels deep. There is no such lock
    /// for a depth of zero.
    pub fn held_by(owner: ThreadId, depth: usize) -> (state: Option<Self>)
        ensures
            depth == 0 <==> state is None,
            state matches Some(lock) ==> lock@ == (Hold { owner: Some(owner), depth: depth as nat }),
    {
        if depth == 0 {
            None
        } else {
            Some(LockState { owner: Some(owner), depth })
        }
    }

    /// The thread that holds the lock, if one does.
    pub fn owner(&self) -> (owner: Option<ThreadId>)
        ensures
            owner == self@.owner,
            self@.wf(),
    {
        proof {
            use_type_invariant(self);
        }
        self.owner
    }

    /// The number of nested holds. It is zero exactly when the lock is free.
    pub fn depth(&self) -> (depth: usize)
        ensures
            depth == self@.depth,
            self@.wf(),
    {
        proof {
            use_type_invariant(self);
        }
        self.depth
    }

    /// Whether `caller` holds the lock.
    pub fn is_held_by(&self, caller: ThreadId) -> (held: bool)
        ensures
            held <==> self@.owner == Some(caller),
    {
        match self.owner {
            Some(owner) => owner == caller,
            None => false,
        }
    }

    /// `caller` asks to enter.
    ///
    /// A free lock is taken, a lock that `caller` holds is entered once
    /// more, and a lock that another thread holds is left alone.
    pub fn acquire(&mut self, caller: ThreadId) -> (outcome: Acquire)
        ensures
            old(self)@.wf(),
            final(self)@.wf(),
            match outcome {
                Acquire::Acquired => old(self)@.owner is None && final(self)@ == old(
                    self,
                )@.entered(caller),
                Acquire::Reentered => old(self)@.owner == Some(caller) && old(self)@.depth
                    < usize::MAX && final(self)@ == old(self)@.entered(caller),
                Acquire::Busy => !old(self)@.admits(caller) && final(self)@ == old(self)@,
                Acquire::TooDeep => old(self)@.owner == Some(caller) && old(self)@.depth
                    == usize::MAX && final(self)@ == old(self)@,
            },
    {
        proof {
            use_type_invariant(&*self);
        }
        match self.owner {
            None => {
                *self = LockState { owner: Some(caller), depth: 1 };
                Acquire::Acquired
            },
            Some(owner) => {
                if owner == caller {
                    if self.depth == usize::MAX {
                        Acquire::TooDeep
                    } else {
                        *self = LockState { owner: Some(caller), depth: self.depth + 1 };
                        Acquire::Reentered
                    }
                } else {
                    Acquire::Busy
                }
            },
        }
    }

    /// `caller` leaves once.
    ///
    /// Only the last of the owner's nested holds frees the lock.
    pub fn release(&mut self, caller: ThreadId) -> (outcome: Release)
        ensures
            old(self)@.wf(),
            final(self)@.wf(),
            match outcome {
                Release::Unlocked => old(self)@.owner == Some(caller) && old(self)@.depth == 1
                    && final(self)@ == Hold::free(),
                Release::StillHeld => old(self)@.owner == Some(caller) && old(self)@.depth > 1
                    && final(self)@ == old(self)@.left(),
                Release::NotOwner => old(self)@.owner != Some(caller) && final(self)@ == old(
                    self,
                )@,
            },
            old(self)@.owner == Some(caller) ==> final(self)@ == old(self)@.left(),
    {
        proof {
            use_type_invariant(&*self);
        }
        if !self.is_held_by(caller) {
            Release::NotOwner
        } else if self.depth == 1 {
            *self = LockState { owner: None, depth: 0 };
            Release::Unlocked
        } else {
            *self = LockState { owner: Some(caller), depth: self.depth - 1 };
            Release::StillHeld
        }
    }
}

/// What a lock looks like after one thread has entered it some times in a
/// row, starting from a lock that the thread may enter.
pub proof fn lemma_entered_times(hold: Hold, caller: ThreadId, times: nat)
    requires
        hold.wf(),
        hold.admits(caller),
    ensures
        hold.entered_times(caller, times).wf(),
        hold.entered_times(caller, times).admits(caller),
        hold.entered_times(caller, times).depth == hold.depth + times,
        times > 0 ==> hold.entered_times(caller, times).owner == Some(caller),
    decreases times,
{
    if times > 0 {
        lemma_entered_times(hold, caller, (times - 1) as nat);
    }
}

/// What a lock looks like after its owner has left it some times in a row,
/// but not more often than it had entered.
pub proof fn lemma_left_times(hold: Hold, times: nat)
    requires
        hold.wf(),
        times <= hold.depth,
    ensures
        hold.left_times(times).wf(),
        hold.left_times(times).depth == hold.depth - times,
        times < hold.depth ==> hold.left_times(times).owner == hold.owner,
        times == hold.depth ==> hold.left_times(times) == Hold::free(),
    decreases times,
{
    if times > 0 {
        lemma_left_times(hold, (times - 1) as nat);
    }
}

/// A thread that enters a lock twice in a row is admitted both times: the
/// second entry finds the lock held by the thread itself and does not wait.
pub proof fn lemma_nested_entry_does_not_block(hold: Hold, caller: ThreadId)
    requires
        hold.wf(),
        hold.admits(caller),
    ensures
        hold.entered(caller).admits(caller),
        hold.entered(caller).entered(caller).owner == Some(caller),
        hold.entered(caller).entered(caller).depth == hold.depth + 2,
        hold.entered(caller).entered(caller).wf(),
{
}

/// A lock that one thread has entered stays closed to every other thread
/// until the first has left as often as it entered: after `entries` nested
/// entries and `exits` exits, another thread is admitted exactly if
/// `exits == entries`.
pub proof fn lemma_excluded_until_all_left(
    holder: ThreadId,
    other: ThreadId,
    entries: nat,
    exits: nat,
)
    requires
        holder != other,
        exits <= entries,
    ensures
        Hold::free().entered_times(holder, entries).left_times(exits).admits(other) <==> exits
            == entries,
        Hold::free().entered_times(holder, entries).left_times(exits).admits(holder),
        Hold::free().entered_times(holder, entries).left_times(exits).depth == entries - exits,
{
    let held = Hold::free().entered_times(holder, entries);
    lemma_entered_times(Hold::free(), holder, entries);
    lemma_left_times(held, exits);
}

} // verus!
