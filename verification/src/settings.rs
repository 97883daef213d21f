//! The three configurable durations: their limits and the cursor over them.

use vstd::prelude::*;

verus! {

/// Smallest number of minutes any duration can be set to.
pub const MIN_MINUTES: u64 = 1;

/// Largest number of minutes a focus session can be set to.
pub const MAX_FOCUS_MINUTES: u64 = 120;

/// Largest number of minutes a break can be set to.
pub const MAX_BREAK_MINUTES: u64 = 60;

/// The cursor of the settings view: which duration an adjustment changes.
#[derive(Clone, Copy, PartialEq, Eq, Structural, Debug)]
pub enum SettingSelection {
    FocusTime,
    ShortBreakTime,
    LongBreakTime,
}

/// `minutes + delta`, brought back into `[MIN_MINUTES, max]`.
pub open spec fn clamped_minutes(minutes: u64, delta: i64, max: u64) -> int {
    let moved: int = minutes + delta;
    if moved < MIN_MINUTES {
        MIN_MINUTES as int
    } else if moved > max {
        max as int
    } else {
        moved
    }
}

impl SettingSelection {
    /// The entry below this one; the last wraps to the first.
    pub open spec fn next(self) -> SettingSelection {
        match self {
            SettingSelection::FocusTime => SettingSelection::ShortBreakTime,
            SettingSelection::ShortBreakTime => SettingSelection::LongBreakTime,
            SettingSelection::LongBreakTime => SettingSelection::FocusTime,
        }
    }

    /// The entry above this one; the first wraps to the last.
    pub open spec fn prev(self) -> SettingSelection {
        match self {
            SettingSelection::FocusTime => SettingSelection::LongBreakTime,
            SettingSelection::ShortBreakTime => SettingSelection::FocusTime,
            SettingSelection::LongBreakTime => SettingSelection::ShortBreakTime,
        }
    }

    /// The largest number of minutes the selected duration may have.
    pub open spec fn max_minutes(self) -> u64 {
        match self {
            SettingSelection::FocusTime => MAX_FOCUS_MINUTES,
            SettingSelection::ShortBreakTime => MAX_BREAK_MINUTES,
            SettingSelection::LongBreakTime => MAX_BREAK_MINUTES,
        }
    }

    /// The largest number of minutes the selected duration may have: 120 for
    /// a focus session, 60 for either break.
    pub fn limit(&self) -> (max: u64)
        ensures
            max == self.max_minutes(),
            MIN_MINUTES <= max,
    {
        match self {
            SettingSelection::FocusTime => MAX_FOCUS_MINUTES,
            SettingSelection::ShortBreakTime => MAX_BREAK_MINUTES,
            SettingSelection::LongBreakTime => MAX_BREAK_MINUTES,
        }
    }

    /// Moves a duration of the selected kind by `delta` minutes and clamps it
    /// to the range of that kind. No delta, however large, and no starting
    /// value takes the result out of the range.
    pub fn adjust(&self, minutes: u64, delta: i64) -> (adjusted: u64)
        ensures
            adjusted == clamped_minutes(minutes, delta, self.max_minutes()),
            MIN_MINUTES <= adjusted <= self.max_minutes(),
    {
        let max: u64 = self.limit();
        let moved: i128 = minutes as i128 + delta as i128;
        if moved < MIN_MINUTES as i128 {
            MIN_MINUTES
        } else if moved > max as i128 {
            max
        } else {
            moved as u64
        }
    }
}

} // verus!
