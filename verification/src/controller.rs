//! The controller's rules: which operation a key press stands for in each
//! view, and what carrying it out does to the engine.

use vstd::prelude::*;
use crate::app::{App, AppTab};
use crate::notice::Notice;
use crate::phase::Phase;

verus! {

/// Minutes by which one key press in the settings view moves a duration.
pub const ADJUST_STEP: i64 = 5;

/// A key press, reduced to what the bindings tell apart.
#[derive(Clone, Copy, PartialEq, Eq, Structural, Debug)]
pub enum Key {
    /// A character key.
    Char(char),
    Tab,
    Up,
    Down,
    Left,
    Right,
    /// Any other key.
    Other,
}

/// An operation that a key press can ask for.
#[derive(Clone, Copy, PartialEq, Eq, Structural, Debug)]
pub enum Command {
    /// Leave the program.
    Quit,
    /// Bring the other top-level view on screen.
    SwitchTab,
    /// Pause or resume the timer.
    ToggleTimer,
    /// Move on to the next phase.
    NextPhase,
    /// Reset the timer of the active phase.
    ResetTimer,
    /// Select a phase by hand.
    SetPhase(Phase),
    /// Move the settings cursor up.
    PrevSetting,
    /// Move the settings cursor down.
    NextSetting,
    /// Move the selected duration by so many minutes.
    AdjustSetting(i64),
}

/// What the driving loop has to do after the engine has handled an event.
#[derive(Clone, Copy, PartialEq, Eq, Structural, Debug)]
pub enum Effect {
    /// Go on.
    Nothing,
    /// Show the user this notice, then go on.
    Notify(Notice),
    /// Leave the loop.
    Quit,
}

/// The binding of a character key in the timer view.
pub open spec fn timer_char_binding(c: char) -> Option<Command> {
    if c == ' ' {
        Some(Command::ToggleTimer)
    } else if c == 'n' {
        Some(Command::NextPhase)
    } else if c == 'r' {
        Some(Command::ResetTimer)
    } else if c == '1' {
        Some(Command::SetPhase(Phase::Focus))
    } else if c == '2' {
        Some(Command::SetPhase(Phase::ShortBreak))
    } else if c == '3' {
        Some(Command::SetPhase(Phase::LongBreak))
    } else {
        None
    }
}

/// The binding of a key in the settings view: the arrow keys, and `k`, `j`,
/// `h`, `l` in their place.
pub open spec fn settings_binding(key: Key) -> Option<Command> {
    match key {
        Key::Up => Some(Command::PrevSetting),
        Key::Down => Some(Command::NextSetting),
        Key::Left => Some(Command::AdjustSetting((-ADJUST_STEP) as i64)),
        Key::Right => Some(Command::AdjustSetting(ADJUST_STEP)),
        Key::Char(c) => if c == 'k' {
            Some(Command::PrevSetting)
        } else if c == 'j' {
            Some(Command::NextSetting)
        } else if c == 'h' {
            Some(Command::AdjustSetting((-ADJUST_STEP) as i64))
        } else if c == 'l' {
            Some(Command::AdjustSetting(ADJUST_STEP))
        } else {
            None
        },
        _ => None,
    }
}

/// The operation that `key` stands for while `tab` is on screen, if any.
/// `q` and the tab key mean the same in both views; every other key is
/// looked up in the bindings of the view on screen.
pub open spec fn binding(tab: AppTab, key: Key) -> Option<Command> {
    if key == Key::Char('q') {
        Some(Command::Quit)
    } else if key == Key::Tab {
        Some(Command::SwitchTab)
    } else {
        match tab {
            AppTab::Timer => match key {
                Key::Char(c) => timer_char_binding(c),
                _ => None,
            },
            AppTab::Settings => settings_binding(key),
        }
    }
}

/// The operation that `key` stands for while `tab` is on screen, if any.
pub fn command_for_key(tab: AppTab, key: Key) -> (command: Option<Command>)
    ensures
        command == binding(tab, key),
{
    match key {
        Key::Tab => Some(Command::SwitchTab),
        Key::Char(c) => {
            if c == 'q' {
                Some(Command::Quit)
            } else {
                match tab {
                    AppTab::Timer => {
                        if c == ' ' {
                            Some(Command::ToggleTimer)
                        } else if c == 'n' {
                            Some(Command::NextPhase)
                        } else if c == 'r' {
                            Some(Command::ResetTimer)
                        } else if c == '1' {
                            Some(Command::SetPhase(Phase::Focus))
                        } else if c == '2' {
                            Some(Command::SetPhase(Phase::ShortBreak))
                        } else if c == '3' {
                            Some(Command::SetPhase(Phase::LongBreak))
                        } else {
                            None
                        }
                    },
                    AppTab::Settings => {
                        if c == 'k' {
                            Some(Command::PrevSetting)
                        } else if c == 'j' {
                            Some(Command::NextSetting)
                        } else if c == 'h' {
                            Some(Command::AdjustSetting(-ADJUST_STEP))
                        } else if c == 'l' {
                            Some(Command::AdjustSetting(ADJUST_STEP))
                        } else {
                            None
                        }
                    },
                }
            }
        },
        Key::Up => match tab {
            AppTab::Timer => None,
            AppTab::Settings => Some(Command::PrevSetting),
        },
        Key::Down => match tab {
            AppTab::Timer => None,
            AppTab::Settings => Some(Command::NextSetting),
        },
        Key::Left => match tab {
            AppTab::Timer => None,
            AppTab::Settings => Some(Command::AdjustSetting(-ADJUST_STEP)),
        },
        Key::Right => match tab {
            AppTab::Timer => None,
            AppTab::Settings => Some(Command::AdjustSetting(ADJUST_STEP)),
        },
        Key::Other => None,
    }
}

impl App {
    /// The state after `command` was carried out at `now`.
    pub open spec fn after_command(self, command: Command, now: u64) -> App {
        match command {
            Command::Quit => self,
            Command::SwitchTab => self.after_switch_tab(),
            Command::ToggleTimer => self.after_toggle(now),
            Command::NextPhase => self.after_next_phase(),
            Command::ResetTimer => self.after_reset(),
            Command::SetPhase(phase) => self.after_set_phase(phase),
            Command::PrevSetting => self.after_prev_setting(),
            Command::NextSetting => self.after_next_setting(),
            Command::AdjustSetting(delta) => self.after_adjust(delta),
        }
    }

    /// What the driving loop has to do once `command` was carried out: leave
    /// on `Quit`, announce the phase entered on `NextPhase`, nothing else.
    pub open spec fn effect_of(self, command: Command) -> Effect {
        match command {
            Command::Quit => Effect::Quit,
            Command::NextPhase => Effect::Notify(Notice::PhaseChanged(self.phase_after())),
            _ => Effect::Nothing,
        }
    }

    /// The state after `key` was pressed at `now`.
    pub open spec fn after_key(self, key: Key, now: u64) -> App {
        match binding(self.current_tab, key) {
            Some(command) => self.after_command(command, now),
            None => self,
        }
    }

    /// What the driving loop has to do once `key` was handled.
    pub open spec fn effect_of_key(self, key: Key) -> Effect {
        match binding(self.current_tab, key) {
            Some(command) => self.effect_of(command),
            None => Effect::Nothing,
        }
    }

    /// Carries out `command` at the clock reading `now` and says what is
    /// left for the driving loop to do.
    pub fn apply(&mut self, command: Command, now: u64) -> (effect: Effect)
        ensures
            *final(self) == old(self).after_command(command, now),
            effect == old(self).effect_of(command),
    {
        match command {
            Command::Quit => Effect::Quit,
            Command::SwitchTab => {
                self.switch_tab();
                Effect::Nothing
            },
            Command::ToggleTimer => {
                self.toggle_timer(now);
                Effect::Nothing
            },
            Command::NextPhase => {
                let notice: Notice = self.next_phase();
                Effect::Notify(notice)
            },
            Command::ResetTimer => {
                self.reset_timer();
                Effect::Nothing
            },
            Command::SetPhase(phase) => {
                self.set_phase(phase);
                Effect::Nothing
            },
            Command::PrevSetting => {
                self.prev_setting();
                Effect::Nothing
            },
            Command::NextSetting => {
                self.next_setting();
                Effect::Nothing
            },
            Command::AdjustSetting(delta) => {
                self.adjust_setting(delta);
                Effect::Nothing
            },
        }
    }

    /// Handles a key press at the clock reading `now`: carries out the
    /// operation bound to the key in the view on screen, if there is one,
    /// and says what is left for the driving loop to do. A key without a
    /// binding changes nothing.
    pub fn handle_key(&mut self, key: Key, now: u64) -> (effect: Effect)
        ensures
            *final(self) == old(self).after_key(key, now),
            effect == old(self).effect_of_key(key),
    {
        match command_for_key(self.current_tab, key) {
            Some(command) => self.apply(command, now),
            None => Effect::Nothing,
        }
    }
}

} // verus!
