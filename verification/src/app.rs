//! The timer engine: one owned state value and the operations on it.
//!
//! Each operation has a spec function that gives the state after it as a
//! function of the state before; the executable operation is proved to
//! produce exactly that state.

use vstd::prelude::*;
use crate::notice::Notice;
use crate::phase::{break_after, Phase};
use crate::settings::{clamped_minutes, SettingSelection};
use crate::settings::{MAX_BREAK_MINUTES, MAX_FOCUS_MINUTES, MIN_MINUTES};
use crate::time::{saturated, span, MILLIS_PER_MINUTE};

verus! {

/// The top-level view that is on screen.
#[derive(Clone, Copy, PartialEq, Eq, Structural, Debug)]
pub enum AppTab {
    Timer,
    Settings,
}

/// The whole state of the timer.
///
/// Times are readings of a monotonic clock in milliseconds, durations are
/// milliseconds, and the configured lengths are minutes.
#[derive(Clone, Copy, PartialEq, Eq, Structural, Debug)]
pub struct App {
    /// The view on screen.
    pub current_tab: AppTab,
    /// The active phase.
    pub phase: Phase,
    /// Whether the countdown is running (`true`) or paused (`false`).
    pub running: bool,
    /// The clock reading at the last resume. It means nothing while paused.
    pub start_time: u64,
    /// Time banked from all earlier running intervals since the last reset.
    pub paused_duration: u64,
    /// Completed focus sessions.
    pub pomodoro_count: u64,
    /// Every this many completed focus sessions the break is a long one.
    pub long_break_interval: u8,
    /// Length of a focus session, in minutes.
    pub cfg_focus: u64,
    /// Length of a short break, in minutes.
    pub cfg_short: u64,
    /// Length of a long break, in minutes.
    pub cfg_long: u64,
    /// The cursor of the settings view.
    pub selected_setting: SettingSelection,
}

impl App {
    /// The state at start-up: the timer view, a paused focus session with
    /// nothing elapsed, no session completed, a long break every fourth
    /// session, and lengths of 25, 5 and 15 minutes.
    pub open spec fn initial() -> App {
        App {
            current_tab: AppTab::Timer,
            phase: Phase::Focus,
            running: false,
            start_time: 0,
            paused_duration: 0,
            pomodoro_count: 0,
            long_break_interval: 4,
            cfg_focus: 25,
            cfg_short: 5,
            cfg_long: 15,
            selected_setting: SettingSelection::FocusTime,
        }
    }

    /// Every configured length lies in its range: focus in `[1, 120]`,
    /// both breaks in `[1, 60]`. The engine starts in such a state and no
    /// operation leaves them.
    pub open spec fn wf(self) -> bool {
        &&& MIN_MINUTES <= self.cfg_focus <= MAX_FOCUS_MINUTES
        &&& MIN_MINUTES <= self.cfg_short <= MAX_BREAK_MINUTES
        &&& MIN_MINUTES <= self.cfg_long <= MAX_BREAK_MINUTES
    }

    /// The configured length of the active phase, in minutes.
    pub open spec fn target_minutes(self) -> u64 {
        match self.phase {
            Phase::Focus => self.cfg_focus,
            Phase::ShortBreak => self.cfg_short,
            Phase::LongBreak => self.cfg_long,
        }
    }

    /// The length of the active phase, in milliseconds.
    pub open spec fn target_millis(self) -> int {
        saturated(self.target_minutes() * MILLIS_PER_MINUTE)
    }

    /// The time spent in the active phase since its last reset, as of the
    /// clock reading `now`: what is banked, plus the time since the last
    /// resume while the timer runs.
    pub open spec fn elapsed_at(self, now: u64) -> int {
        if self.running {
            saturated(self.paused_duration + span(self.start_time, now))
        } else {
            self.paused_duration as int
        }
    }

    /// The time left in the active phase as of `now`; never negative.
    pub open spec fn remaining_at(self, now: u64) -> int {
        if self.elapsed_at(now) <= self.target_millis() {
            self.target_millis() - self.elapsed_at(now)
        } else {
            0
        }
    }

    /// The timer runs and has used up the length of its phase.
    pub open spec fn completed_at(self, now: u64) -> bool {
        self.running && self.remaining_at(now) == 0
    }

    /// The state after a toggle at `now`: a running timer banks the time
    /// since its last resume and pauses, a paused one resumes from `now`.
    pub open spec fn after_toggle(self, now: u64) -> App {
        if self.running {
            App { running: false, paused_duration: self.elapsed_at(now) as u64, ..self }
        } else {
            App { running: true, start_time: now, ..self }
        }
    }

    /// The state after a reset: paused, nothing elapsed.
    pub open spec fn after_reset(self) -> App {
        App { running: false, paused_duration: 0, ..self }
    }

    /// The count of completed sessions after one more.
    pub open spec fn count_after_focus(self) -> u64 {
        if self.pomodoro_count < u64::MAX {
            (self.pomodoro_count + 1) as u64
        } else {
            u64::MAX
        }
    }

    /// The phase that follows the active one: after focus the break that
    /// the new count of completed sessions calls for, after either break
    /// focus.
    pub open spec fn phase_after(self) -> Phase {
        match self.phase {
            Phase::Focus => break_after(self.count_after_focus(), self.long_break_interval),
            Phase::ShortBreak => Phase::Focus,
            Phase::LongBreak => Phase::Focus,
        }
    }

    /// The state after the phase transition: the next phase, one more
    /// completed session where the phase left was focus, and a reset timer.
    pub open spec fn after_next_phase(self) -> App {
        App {
            phase: self.phase_after(),
            pomodoro_count: if self.phase == Phase::Focus {
                self.count_after_focus()
            } else {
                self.pomodoro_count
            },
            ..self
        }.after_reset()
    }

    /// The state after `phase` was selected by hand: that phase, a reset
    /// timer, the count of completed sessions as before.
    pub open spec fn after_set_phase(self, phase: Phase) -> App {
        App { phase, ..self }.after_reset()
    }

    /// The state after a tick at `now`: where the timer ran out, the next
    /// phase with its countdown running from `now`; otherwise the state as
    /// it was.
    pub open spec fn after_tick(self, now: u64) -> App {
        if self.completed_at(now) {
            self.after_next_phase().after_toggle(now)
        } else {
            self
        }
    }

    /// The state after the settings cursor moved down one entry.
    pub open spec fn after_next_setting(self) -> App {
        App { selected_setting: self.selected_setting.next(), ..self }
    }

    /// The state after the settings cursor moved up one entry.
    pub open spec fn after_prev_setting(self) -> App {
        App { selected_setting: self.selected_setting.prev(), ..self }
    }

    /// The state after the selected length was moved by `delta` minutes:
    /// that length clamped to its range, the others as before, the timer
    /// reset.
    pub open spec fn after_adjust(self, delta: i64) -> App {
        let max: u64 = self.selected_setting.max_minutes();
        match self.selected_setting {
            SettingSelection::FocusTime => App {
                cfg_focus: clamped_minutes(self.cfg_focus, delta, max) as u64,
                ..self
            },
            SettingSelection::ShortBreakTime => App {
                cfg_short: clamped_minutes(self.cfg_short, delta, max) as u64,
                ..self
            },
            SettingSelection::LongBreakTime => App {
                cfg_long: clamped_minutes(self.cfg_long, delta, max) as u64,
                ..self
            },
        }.after_reset()
    }

    /// The state after the other top-level view came on screen.
    pub open spec fn after_switch_tab(self) -> App {
        App {
            current_tab: match self.current_tab {
                AppTab::Timer => AppTab::Settings,
                AppTab::Settings => AppTab::Timer,
            },
            ..self
        }
    }

    /// A fresh engine.
    pub fn new() -> (app: App)
        ensures
            app == App::initial(),
            app.wf(),
    {
        App {
            current_tab: AppTab::Timer,
            phase: Phase::Focus,
            running: false,
            start_time: 0,
            paused_duration: 0,
            pomodoro_count: 0,
            long_break_interval: 4,
            cfg_focus: 25,
            cfg_short: 5,
            cfg_long: 15,
            selected_setting: SettingSelection::FocusTime,
        }
    }

    /// The length of the active phase, in milliseconds: its configured
    /// minutes times 60 000.
    pub fn get_target_duration(&self) -> (target: u64)
        ensures
            target == self.target_millis(),
            self.wf() ==> target == self.target_minutes() * MILLIS_PER_MINUTE,
    {
        let minutes: u64 = match self.phase {
            Phase::Focus => self.cfg_focus,
            Phase::ShortBreak => self.cfg_short,
            Phase::LongBreak => self.cfg_long,
        };
        match minutes.checked_mul(MILLIS_PER_MINUTE) {
            Some(millis) => millis,
            None => u64::MAX,
        }
    }

    /// The time spent in the active phase since its last reset, as of the
    /// clock reading `now`. A reading earlier than the last resume counts
    /// as no time since then.
    pub fn get_elapsed(&self, now: u64) -> (elapsed: u64)
        ensures
            elapsed == self.elapsed_at(now),
    {
        if self.running {
            self.paused_duration.saturating_add(now.saturating_sub(self.start_time))
        } else {
            self.paused_duration
        }
    }

    /// The time left in the active phase as of `now`: the target less the
    /// elapsed time, and zero once the elapsed time has passed the target.
    pub fn get_remaining(&self, now: u64) -> (remaining: u64)
        ensures
            remaining == self.remaining_at(now),
            self.elapsed_at(now) <= self.target_millis() ==> remaining + self.elapsed_at(now)
                == self.target_millis(),
            self.elapsed_at(now) > self.target_millis() ==> remaining == 0,
    {
        let target: u64 = self.get_target_duration();
        target.saturating_sub(self.get_elapsed(now))
    }

    /// Pauses a running timer, banking the time since it was resumed, or
    /// resumes a paused one from `now`.
    pub fn toggle_timer(&mut self, now: u64)
        ensures
            *final(self) == old(self).after_toggle(now),
            final(self).running == !old(self).running,
            final(self).elapsed_at(now) == old(self).elapsed_at(now),
    {
        if self.running {
            self.paused_duration = self.get_elapsed(now);
            self.running = false;
        } else {
            self.start_time = now;
            self.running = true;
        }
    }

    /// Pauses the timer and discards the elapsed time of the phase.
    pub fn reset_timer(&mut self)
        ensures
            *final(self) == old(self).after_reset(),
            !final(self).running,
            forall|now: u64| final(self).elapsed_at(now) == 0,
    {
        self.running = false;
        self.paused_duration = 0;
    }

    /// Leaves the active phase for the next one and resets the timer.
    ///
    /// Leaving a focus session counts it as completed; the break that follows
    /// is a long one where the new count is a multiple of the long-break
    /// interval, a short one otherwise. Either break leads back to focus and
    /// leaves the count alone. The returned notice names the phase entered.
    pub fn next_phase(&mut self) -> (notice: Notice)
        ensures
            *final(self) == old(self).after_next_phase(),
            notice == Notice::PhaseChanged(final(self).phase),
    {
        match self.phase {
            Phase::Focus => {
                if self.pomodoro_count < u64::MAX {
                    self.pomodoro_count = self.pomodoro_count + 1;
                }
                let interval: u64 = self.long_break_interval as u64;
                if interval > 0 && self.pomodoro_count % interval == 0 {
                    self.phase = Phase::LongBreak;
                } else {
                    self.phase = Phase::ShortBreak;
                }
            },
            Phase::ShortBreak => {
                self.phase = Phase::Focus;
            },
            Phase::LongBreak => {
                self.phase = Phase::Focus;
            },
        }
        self.reset_timer();
        Notice::PhaseChanged(self.phase)
    }

    /// Selects `phase` by hand and resets the timer. The count of completed
    /// sessions stays as it is.
    pub fn set_phase(&mut self, phase: Phase)
        ensures
            *final(self) == old(self).after_set_phase(phase),
    {
        self.phase = phase;
        self.reset_timer();
    }

    /// Moves on when the time of the phase is up. The driving loop calls
    /// this on every pass.
    ///
    /// Where the timer runs and nothing remains of its phase at `now`, the
    /// engine moves on as `next_phase` does and starts the countdown of the
    /// new phase at `now`, so that a running timer stays running; the notice
    /// of the change is returned. Otherwise nothing changes.
    pub fn tick(&mut self, now: u64) -> (notice: Option<Notice>)
        ensures
            *final(self) == old(self).after_tick(now),
            old(self).completed_at(now) ==> notice == Some(
                Notice::PhaseChanged(final(self).phase),
            ),
            !old(self).completed_at(now) ==> notice.is_none(),
    {
        if self.running && self.get_remaining(now) == 0 {
            let notice: Notice = self.next_phase();
            self.toggle_timer(now);
            Some(notice)
        } else {
            None
        }
    }

    /// Moves the settings cursor down one entry, from the last to the first.
    pub fn next_setting(&mut self)
        ensures
            *final(self) == old(self).after_next_setting(),
    {
        self.selected_setting = match self.selected_setting {
            SettingSelection::FocusTime => SettingSelection::ShortBreakTime,
            SettingSelection::ShortBreakTime => SettingSelection::LongBreakTime,
            SettingSelection::LongBreakTime => SettingSelection::FocusTime,
        };
    }

    /// Moves the settings cursor up one entry, from the first to the last.
    pub fn prev_setting(&mut self)
        ensures
            *final(self) == old(self).after_prev_setting(),
    {
        self.selected_setting = match self.selected_setting {
            SettingSelection::FocusTime => SettingSelection::LongBreakTime,
            SettingSelection::ShortBreakTime => SettingSelection::FocusTime,
            SettingSelection::LongBreakTime => SettingSelection::ShortBreakTime,
        };
    }

    /// Moves the selected length by `delta` minutes, clamps it to its range
    /// and resets the timer. The two other lengths stay as they are.
    pub fn adjust_setting(&mut self, delta: i64)
        ensures
            *final(self) == old(self).after_adjust(delta),
            old(self).wf() ==> final(self).wf(),
    {
        let selected: SettingSelection = self.selected_setting;
        match selected {
            SettingSelection::FocusTime => {
                self.cfg_focus = selected.adjust(self.cfg_focus, delta);
            },
            SettingSelection::ShortBreakTime => {
                self.cfg_short = selected.adjust(self.cfg_short, delta);
            },
            SettingSelection::LongBreakTime => {
                self.cfg_long = selected.adjust(self.cfg_long, delta);
            },
        }
        self.reset_timer();
    }

    /// Brings the other top-level view on screen.
    pub fn switch_tab(&mut self)
        ensures
            *final(self) == old(self).after_switch_tab(),
    {
        self.current_tab = match self.current_tab {
            AppTab::Timer => AppTab::Settings,
            AppTab::Settings => AppTab::Timer,
        };
    }
}

} // verus!
