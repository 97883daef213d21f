//! The three phases of the timer cycle.

use vstd::prelude::*;

verus! {

/// One stage of the work/rest cycle. Exactly one is active at any time.
#[derive(Clone, Copy, PartialEq, Eq, Structural, Debug)]
pub enum Phase {
    Focus,
    ShortBreak,
    LongBreak,
}

/// The accent colour that goes with a phase.
#[derive(Clone, Copy, PartialEq, Eq, Structural, Debug)]
pub enum PhaseColor {
    Red,
    Green,
    Blue,
}

/// The break that follows the focus session which brought the count of
/// completed sessions to `count`: a long one where `interval` is positive
/// and divides `count`, a short one otherwise.
pub open spec fn break_after(count: u64, interval: u8) -> Phase {
    if interval > 0 && count as int % interval as int == 0 {
        Phase::LongBreak
    } else {
        Phase::ShortBreak
    }
}

impl Phase {
    /// The display name of the phase, as a sequence of characters.
    pub open spec fn name_chars(self) -> Seq<char> {
        match self {
            Phase::Focus => "FOCUS SESSION"@,
            Phase::ShortBreak => "SHORT BREAK"@,
            Phase::LongBreak => "LONG BREAK"@,
        }
    }

    /// The accent colour of the phase: red for focus, green for a short
    /// break, blue for a long break.
    pub open spec fn accent(self) -> PhaseColor {
        match self {
            Phase::Focus => PhaseColor::Red,
            Phase::ShortBreak => PhaseColor::Green,
            Phase::LongBreak => PhaseColor::Blue,
        }
    }

    /// The display name of the phase.
    pub fn name(&self) -> (text: &'static str)
        ensures
            text@ == self.name_chars(),
    {
        match self {
            Phase::Focus => "FOCUS SESSION",
            Phase::ShortBreak => "SHORT BREAK",
            Phase::LongBreak => "LONG BREAK",
        }
    }

    /// The accent colour of the phase.
    pub fn color(&self) -> (accent: PhaseColor)
        ensures
            accent == self.accent(),
    {
        match self {
            Phase::Focus => PhaseColor::Red,
            Phase::ShortBreak => PhaseColor::Green,
            Phase::LongBreak => PhaseColor::Blue,
        }
    }
}

} // verus!
