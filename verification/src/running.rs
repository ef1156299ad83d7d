//! The flag that says whether a session is alive, and the guard that a
//! session holds while it is.
//!
//! There is one terminal, so there is at most one session. The flag is set
//! when a session begins and cleared when it has ended; whoever set it holds
//! a [`RunningGuard`], and only a guard clears it again. The functions here
//! take the flag by reference: where the flag is shared, the caller sees to
//! it that one of them runs at a time.

use vstd::prelude::*;

verus! {

/// Whether a session is alive. A new flag says that none is.
#[derive(Debug)]
pub struct RunningFlag {
    running: bool,
}

/// The token of the session that set the flag. It cannot be made but by
/// [`run`], and it is spent by [`release`].
#[derive(Debug)]
pub struct RunningGuard {
    token: (),
}

impl RunningFlag {
    /// Whether the flag is set.
    pub closed spec fn is_running(&self) -> bool {
        self.running
    }

    /// The flag after an attempt to take it: set, whoever holds it.
    pub closed spec fn after_run(self) -> RunningFlag {
        RunningFlag { running: true }
    }

    /// The flag after its guard was given back: clear.
    pub closed spec fn after_release(self) -> RunningFlag {
        RunningFlag { running: false }
    }

    /// A flag that is not set.
    pub fn new() -> (flag: RunningFlag)
        ensures
            !flag.is_running(),
    {
        RunningFlag { running: false }
    }
}

/// Whether a session is alive.
///
/// Where other threads may begin or end a session this is advice and no
/// more: the answer may be out of date when it arrives.
pub fn running(flag: &RunningFlag) -> (alive: bool)
    ensures
        alive == flag.is_running(),
{
    flag.running
}

/// Takes the flag: sets it, and hands out the guard if it was clear before.
/// If it was set, it stays set and there is no guard.
pub fn run(flag: &mut RunningFlag) -> (guard: Option<RunningGuard>)
    ensures
        *final(flag) == old(flag).after_run(),
        final(flag).is_running(),
        guard is Some <==> !old(flag).is_running(),
{
    let was_running = flag.running;
    flag.running = true;
    if was_running {
        None
    } else {
        Some(RunningGuard { token: () })
    }
}

/// Gives the guard back and clears the flag.
pub fn release(flag: &mut RunningFlag, guard: RunningGuard)
    ensures
        *final(flag) == old(flag).after_release(),
        !final(flag).is_running(),
{
    let RunningGuard { token: _ } = guard;
    flag.running = false;
}

/// The flag admits one guard at a time. After an attempt to take it the
/// flag is set, so the next attempt gets no guard and changes nothing; after
/// a release it is clear, so the next attempt gets the guard.
pub proof fn lemma_one_guard_at_a_time(flag: RunningFlag)
    ensures
        flag.after_run().is_running(),
        flag.after_run().after_run() == flag.after_run(),
        flag.is_running() ==> flag.after_run() == flag,
        !flag.after_release().is_running(),
        !flag.is_running() ==> flag.after_release() == flag,
{
}

} // verus!
