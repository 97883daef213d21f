//! The figures that the timer view shows, computed from the engine's state.

use vstd::prelude::*;
use crate::app::App;
use crate::time::{MILLIS_PER_SECOND, SECONDS_PER_MINUTE};

verus! {

impl App {
    /// The whole seconds left in the active phase as of `now`.
    pub open spec fn remaining_seconds(self, now: u64) -> int {
        self.remaining_at(now) / MILLIS_PER_SECOND as int
    }

    /// How far the engine is into the current round of focus sessions: the
    /// count of completed sessions modulo the long-break interval, and the
    /// count itself where the interval is zero and no round ever ends.
    pub open spec fn sessions_in_round(self) -> int {
        if self.long_break_interval > 0 {
            self.pomodoro_count as int % self.long_break_interval as int
        } else {
            self.pomodoro_count as int
        }
    }

    /// The time left in the active phase as of `now`, as the minutes and
    /// seconds of a countdown clock. Fractions of a second are dropped.
    pub fn remaining_clock(&self, now: u64) -> (clock: (u64, u64))
        ensures
            clock.0 == self.remaining_seconds(now) / SECONDS_PER_MINUTE as int,
            clock.1 == self.remaining_seconds(now) % SECONDS_PER_MINUTE as int,
            clock.0 * SECONDS_PER_MINUTE + clock.1 == self.remaining_seconds(now),
            clock.1 < SECONDS_PER_MINUTE,
    {
        let seconds: u64 = self.get_remaining(now) / MILLIS_PER_SECOND;
        (seconds / SECONDS_PER_MINUTE, seconds % SECONDS_PER_MINUTE)
    }

    /// The number of focus sessions completed in the current round, that is
    /// since a long break last fell due.
    pub fn completed_in_round(&self) -> (sessions: u64)
        ensures
            sessions == self.sessions_in_round(),
    {
        let interval: u64 = self.long_break_interval as u64;
        if interval > 0 {
            self.pomodoro_count % interval
        } else {
            self.pomodoro_count
        }
    }
}

} // verus!
