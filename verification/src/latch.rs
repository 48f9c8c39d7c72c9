//! The day latch: a flag that lets an action happen at most once inside its
//! trigger window and is cleared again inside a later reset window.

use crate::clock::TimeOfDay;
use vstd::prelude::*;

verus! {

/// When an action becomes due.
#[derive(Clone, Copy, Debug, PartialEq, Eq, Structural)]
pub enum TriggerWindow {
    /// From a threshold to the end of the threshold's hour.
    Threshold(TimeOfDay),
    /// Every reading whose hour lies in `start..end`.
    Hours { start: u32, end: u32 },
}

impl TriggerWindow {
    /// A reading is inside a threshold window when its hour is the
    /// threshold's and its minute has reached the threshold's; inside an hour
    /// range when its hour is at least `start` and below `end`.
    pub open spec fn contains(self, now: TimeOfDay) -> bool {
        match self {
            TriggerWindow::Threshold(t) => now.hour == t.hour && now.minute >= t.minute,
            TriggerWindow::Hours { start, end } => start <= now.hour && now.hour < end,
        }
    }

    /// Tests whether `now` lies inside the window.
    pub fn covers(&self, now: TimeOfDay) -> (r: bool)
        ensures
            r == self.contains(now),
    {
        match self {
            TriggerWindow::Threshold(t) => now.hour == t.hour && now.minute >= t.minute,
            TriggerWindow::Hours { start, end } => *start <= now.hour && now.hour < *end,
        }
    }
}

/// The first minutes of one hour of the day, during which a fired latch is
/// cleared.
#[derive(Clone, Copy, Debug, PartialEq, Eq, Structural)]
pub struct ResetWindow {
    pub hour: u32,
    pub last_minute: u32,
}

impl ResetWindow {
    /// A reading is inside the window when its hour is the window's and its
    /// minute does not exceed `last_minute`.
    pub open spec fn contains(self, now: TimeOfDay) -> bool {
        now.hour == self.hour && now.minute <= self.last_minute
    }

    /// Tests whether `now` lies inside the window.
    pub fn covers(&self, now: TimeOfDay) -> (r: bool)
        ensures
            r == self.contains(now),
    {
        now.hour == self.hour && now.minute <= self.last_minute
    }
}

/// One observation handed to a latch: the clock reading, and whether the
/// owner's trigger condition holds at that reading.
pub struct Poll {
    pub now: TimeOfDay,
    pub due: bool,
}

/// Remembers whether today's action already happened.
#[derive(Clone, Copy, Debug, PartialEq, Eq, Structural)]
pub struct DayLatch {
    pub fired: bool,
}

impl DayLatch {
    /// The action happens on a poll exactly when it is due and the latch has
    /// not fired yet.
    pub open spec fn fires(self, due: bool) -> bool {
        !self.fired && due
    }

    /// The latch after a reset attempt: cleared when it had fired and the
    /// reading is inside the reset window, untouched otherwise.
    pub open spec fn reset_at(self, now: TimeOfDay, reset: ResetWindow) -> DayLatch {
        if self.fired && reset.contains(now) {
            DayLatch { fired: false }
        } else {
            self
        }
    }

    /// The latch after one poll: set when the action happens, otherwise put
    /// through a reset attempt.
    pub open spec fn step(self, now: TimeOfDay, due: bool, reset: ResetWindow) -> DayLatch {
        if self.fires(due) {
            DayLatch { fired: true }
        } else {
            self.reset_at(now, reset)
        }
    }

    /// The latch after a series of polls, oldest first.
    pub open spec fn run(self, polls: Seq<Poll>, reset: ResetWindow) -> DayLatch
        decreases polls.len(),
    {
        if polls.len() == 0 {
            self
        } else {
            self.step(polls[0].now, polls[0].due, reset).run(polls.skip(1), reset)
        }
    }

    /// How many polls of a series make the action happen.
    pub open spec fn fire_count(self, polls: Seq<Poll>, reset: ResetWindow) -> nat
        decreases polls.len(),
    {
        if polls.len() == 0 {
            0
        } else {
            let rest = self.step(polls[0].now, polls[0].due, reset).fire_count(
                polls.skip(1),
                reset,
            );
            if self.fires(polls[0].due) {
                rest + 1
            } else {
                rest
            }
        }
    }

    /// A latch that has not fired.
    pub fn new() -> (r: DayLatch)
        ensures
            !r.fired,
    {
        DayLatch { fired: false }
    }

    /// Whether the action is to happen now: the reading is inside the trigger
    /// window and the latch has not fired.
    pub fn should_fire(&self, now: TimeOfDay, trigger: TriggerWindow) -> (r: bool)
        ensures
            r == self.fires(trigger.contains(now)),
    {
        !self.fired && trigger.covers(now)
    }

    /// Records that the action happened.
    pub fn mark_fired(&mut self)
        ensures
            final(self).fired,
    {
        self.fired = true;
    }

    /// Clears a fired latch when the reading is inside the reset window.
    pub fn maybe_reset(&mut self, now: TimeOfDay, reset: ResetWindow)
        ensures
            *final(self) == old(self).reset_at(now, reset),
    {
        if self.fired && reset.covers(now) {
            self.fired = false;
        }
    }

    /// One poll: lets the action happen when it is due and has not happened
    /// yet, and otherwise attempts a reset. Returns whether the action
    /// happens.
    pub fn poll(&mut self, now: TimeOfDay, due: bool, reset: ResetWindow) -> (acted: bool)
        ensures
            acted == old(self).fires(due),
            *final(self) == old(self).step(now, due, reset),
    {
        if !self.fired && due {
            self.mark_fired();
            true
        } else {
            self.maybe_reset(now, reset);
            false
        }
    }
}

/// A reset attempt repeated at the same reading changes nothing further.
pub proof fn lemma_reset_idempotent(latch: DayLatch, now: TimeOfDay, reset: ResetWindow)
    ensures
        latch.reset_at(now, reset).reset_at(now, reset) == latch.reset_at(now, reset),
{
}

/// Once the latch has fired, polls taken outside the reset window never make
/// the action happen again, however often the trigger condition holds, and
/// leave the latch fired.
pub proof fn lemma_no_refire_before_reset(latch: DayLatch, polls: Seq<Poll>, reset: ResetWindow)
    requires
        latch.fired,
        forall|i: int| 0 <= i < polls.len() ==> !reset.contains(#[trigger] polls[i].now),
    ensures
        latch.fire_count(polls, reset) == 0,
        latch.run(polls, reset) == latch,
    decreases polls.len(),
{
    if polls.len() > 0 {
        let rest = polls.skip(1);
        assert(!reset.contains(polls[0].now));
        assert forall|i: int| 0 <= i < rest.len() implies !reset.contains(
            #[trigger] rest[i].now,
        ) by {
            assert(rest[i] == polls[i + 1]);
        }
        lemma_no_refire_before_reset(latch, rest, reset);
    }
}

/// Over any series of polls none of which falls inside the reset window, the
/// action happens at most once.
pub proof fn lemma_fires_at_most_once(latch: DayLatch, polls: Seq<Poll>, reset: ResetWindow)
    requires
        forall|i: int| 0 <= i < polls.len() ==> !reset.contains(#[trigger] polls[i].now),
    ensures
        latch.fire_count(polls, reset) <= 1,
    decreases polls.len(),
{
    if polls.len() > 0 {
        let rest = polls.skip(1);
        assert(!reset.contains(polls[0].now));
        assert forall|i: int| 0 <= i < rest.len() implies !reset.contains(
            #[trigger] rest[i].now,
        ) by {
            assert(rest[i] == polls[i + 1]);
        }
        let next = latch.step(polls[0].now, polls[0].due, reset);
        if latch.fires(polls[0].due) {
            lemma_no_refire_before_reset(next, rest, reset);
        } else {
            lemma_fires_at_most_once(next, rest, reset);
        }
    }
}

} // verus!
