//! What the engine asks its caller to tell the user.

use vstd::prelude::*;
use crate::phase::Phase;

verus! {

/// A message for the user. The engine only produces it; delivering it is the
/// caller's business, and a failed delivery changes nothing in the engine.
#[derive(Clone, Copy, PartialEq, Eq, Structural, Debug)]
pub enum Notice {
    /// The timer entered the given phase.
    PhaseChanged(Phase),
}

impl Notice {
    /// The characters of the headline.
    pub open spec fn title_chars(self) -> Seq<char> {
        "Phase Changed"@
    }

    /// The characters of the message text: the word "Starting" and the name
    /// of the phase entered.
    pub open spec fn body_chars(self) -> Seq<char> {
        match self {
            Notice::PhaseChanged(phase) => "Starting "@ + phase.name_chars(),
        }
    }

    /// The headline of the message.
    pub fn title(&self) -> (text: &'static str)
        ensures
            text@ == self.title_chars(),
    {
        "Phase Changed"
    }

    /// The text of the message, which names the phase entered.
    pub fn body(&self) -> (text: &'static str)
        ensures
            text@ == self.body_chars(),
    {
        proof {
            reveal_strlit("Starting ");
            reveal_strlit("FOCUS SESSION");
            reveal_strlit("SHORT BREAK");
            reveal_strlit("LONG BREAK");
            reveal_strlit("Starting FOCUS SESSION");
            reveal_strlit("Starting SHORT BREAK");
            reveal_strlit("Starting LONG BREAK");
        }
        match self {
            Notice::PhaseChanged(Phase::Focus) => {
                assert("Starting FOCUS SESSION"@ =~= "Starting "@ + "FOCUS SESSION"@);
                "Starting FOCUS SESSION"
            },
            Notice::PhaseChanged(Phase::ShortBreak) => {
                assert("Starting SHORT BREAK"@ =~= "Starting "@ + "SHORT BREAK"@);
                "Starting SHORT BREAK"
            },
            Notice::PhaseChanged(Phase::LongBreak) => {
                assert("Starting LONG BREAK"@ =~= "Starting "@ + "LONG BREAK"@);
                "Starting LONG BREAK"
            },
        }
    }
}

} // verus!
