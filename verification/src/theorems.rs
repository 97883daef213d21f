//! What holds of the engine in every state and over every history, proved
//! from the definitions of its operations.

use vstd::prelude::*;
use vstd::arithmetic::div_mod::{lemma_fundamental_div_mod, lemma_fundamental_div_mod_converse};
use vstd::seq_lib::{to_multiset_contains, to_multiset_len, to_multiset_remove};
use crate::app::App;
use crate::controller::Command;
use crate::phase::Phase;
use crate::settings::{SettingSelection, MAX_BREAK_MINUTES, MAX_FOCUS_MINUTES, MIN_MINUTES};
use crate::time::{saturated, span};

verus! {

/// The elapsed time and the time left always make up the target: while the
/// elapsed time has not passed the target, the two add up to it; once it
/// has, nothing is left.
pub proof fn remaining_complements_elapsed(s: App, now: u64)
    ensures
        s.elapsed_at(now) <= s.target_millis() ==> s.remaining_at(now) + s.elapsed_at(now)
            == s.target_millis(),
        s.elapsed_at(now) > s.target_millis() ==> s.remaining_at(now) == 0,
        0 <= s.remaining_at(now) <= s.target_millis(),
{
}

/// While the timer runs, the elapsed time never goes down as the clock
/// goes up.
pub proof fn elapsed_grows_while_running(s: App, earlier: u64, later: u64)
    requires
        s.running,
        earlier <= later,
    ensures
        s.elapsed_at(earlier) <= s.elapsed_at(later),
{
}

/// While the timer is paused, the elapsed time is the banked time, whatever
/// the clock reads.
pub proof fn elapsed_frozen_while_paused(s: App, now: u64)
    requires
        !s.running,
    ensures
        s.elapsed_at(now) == s.paused_duration,
{
}

/// A reset, a phase transition, a phase selected by hand and a change of
/// settings each leave the timer paused with nothing elapsed.
pub proof fn reset_clears_elapsed(s: App, phase: Phase, delta: i64, now: u64)
    ensures
        !s.after_reset().running && s.after_reset().elapsed_at(now) == 0,
        !s.after_next_phase().running && s.after_next_phase().elapsed_at(now) == 0,
        !s.after_set_phase(phase).running && s.after_set_phase(phase).elapsed_at(now) == 0,
        !s.after_adjust(delta).running && s.after_adjust(delta).elapsed_at(now) == 0,
{
}

/// Nothing else touches the elapsed time: a toggle leaves it, as of the
/// moment of the toggle, where it was, and moving the cursor, switching the
/// view and quitting leave it where it was at every moment.
pub proof fn other_commands_keep_elapsed(s: App, now: u64, later: u64)
    ensures
        s.after_toggle(now).elapsed_at(now) == s.elapsed_at(now),
        s.after_next_setting().elapsed_at(later) == s.elapsed_at(later),
        s.after_prev_setting().elapsed_at(later) == s.elapsed_at(later),
        s.after_switch_tab().elapsed_at(later) == s.elapsed_at(later),
        s.after_command(Command::Quit, now).elapsed_at(later) == s.elapsed_at(later),
{
}

/// Pausing a running timer keeps the time elapsed so far, and resuming a
/// paused one starts from the time it had: a pause followed by a resume
/// loses nothing and adds nothing, however long the pause.
pub proof fn pause_then_resume_keeps_elapsed(s: App, paused_at: u64, resumed_at: u64, now: u64)
    requires
        s.running,
    ensures
        !s.after_toggle(paused_at).running,
        s.after_toggle(paused_at).elapsed_at(now) == s.elapsed_at(paused_at),
        s.after_toggle(paused_at).after_toggle(resumed_at).running,
        s.after_toggle(paused_at).after_toggle(resumed_at).elapsed_at(resumed_at) == s.elapsed_at(
            paused_at,
        ),
{
}

/// The state after the timer was paused and at once resumed at each of the
/// readings `pauses` in turn.
pub open spec fn after_pauses(s: App, pauses: Seq<u64>) -> App
    decreases pauses.len(),
{
    if pauses.len() == 0 {
        s
    } else {
        after_pauses(s, pauses.drop_last()).after_toggle(pauses.last()).after_toggle(pauses.last())
    }
}

/// The readings `pauses` were taken in this order from a clock that never
/// runs backwards, none before `first` and none after `last`.
pub open spec fn readings_in_order(first: u64, pauses: Seq<u64>, last: u64) -> bool {
    &&& first <= last
    &&& forall|i: int| 0 <= i < pauses.len() ==> first <= #[trigger] pauses[i] <= last
    &&& forall|i: int, j: int| 0 <= i <= j < pauses.len() ==> pauses[i] <= pauses[j]
}

/// Pausing and resuming a running timer any number of times, with no time
/// passing between a pause and its resume, leaves the elapsed time as it
/// would have been without them, and the timer running in the same phase.
pub proof fn pauses_keep_elapsed(s: App, pauses: Seq<u64>, now: u64)
    requires
        s.running,
        readings_in_order(s.start_time, pauses, now),
    ensures
        after_pauses(s, pauses).elapsed_at(now) == s.elapsed_at(now),
        after_pauses(s, pauses) == (App {
            start_time: after_pauses(s, pauses).start_time,
            paused_duration: after_pauses(s, pauses).paused_duration,
            ..s
        }),
        s.start_time <= after_pauses(s, pauses).start_time <= now,
    decreases pauses.len(),
{
    if pauses.len() > 0 {
        let earlier: Seq<u64> = pauses.drop_last();
        let at: u64 = pauses.last();
        assert(pauses[pauses.len() - 1] == at);
        assert forall|i: int| 0 <= i < earlier.len() implies s.start_time <= #[trigger] earlier[i]
            <= at by {
            assert(earlier[i] == pauses[i]);
        }
        assert forall|i: int, j: int| 0 <= i <= j < earlier.len() implies earlier[i]
            <= earlier[j] by {
            assert(earlier[i] == pauses[i] && earlier[j] == pauses[j]);
        }
        pauses_keep_elapsed(s, earlier, at);
    }
}

/// The total length of the running intervals `runs`, each given by the
/// clock readings at its resume and at its pause.
pub open spec fn total_span(runs: Seq<(u64, u64)>) -> int
    decreases runs.len(),
{
    if runs.len() == 0 {
        0
    } else {
        total_span(runs.drop_last()) + span(runs.last().0, runs.last().1)
    }
}

/// The state after the timer was, for each interval of `runs` in turn,
/// resumed at the interval's first reading and paused at its second.
pub open spec fn after_runs(s: App, runs: Seq<(u64, u64)>) -> App
    decreases runs.len(),
{
    if runs.len() == 0 {
        s
    } else {
        after_runs(s, runs.drop_last()).after_toggle(runs.last().0).after_toggle(runs.last().1)
    }
}

/// The total length of running intervals is never negative.
pub proof fn total_span_nonnegative(runs: Seq<(u64, u64)>)
    ensures
        total_span(runs) >= 0,
    decreases runs.len(),
{
    if runs.len() > 0 {
        total_span_nonnegative(runs.drop_last());
    }
}

/// Banked time is additive: however often a paused timer is resumed and
/// paused again, it ends up paused with the time it had banked plus the
/// total length of the running intervals, and nothing else about it has
/// changed but the reading of its last resume.
pub proof fn banked_time_is_additive(s: App, runs: Seq<(u64, u64)>)
    requires
        !s.running,
    ensures
        after_runs(s, runs) == (App {
            paused_duration: saturated(s.paused_duration + total_span(runs)) as u64,
            start_time: if runs.len() == 0 {
                s.start_time
            } else {
                runs.last().0
            },
            ..s
        }),
    decreases runs.len(),
{
    if runs.len() > 0 {
        banked_time_is_additive(s, runs.drop_last());
        total_span_nonnegative(runs.drop_last());
    }
}

/// Taking one interval out of a history takes its length out of the total.
proof fn total_span_remove(runs: Seq<(u64, u64)>, i: int)
    requires
        0 <= i < runs.len(),
    ensures
        total_span(runs) == total_span(runs.remove(i)) + span(runs[i].0, runs[i].1),
    decreases runs.len(),
{
    if i == runs.len() - 1 {
        assert(runs.remove(i) =~= runs.drop_last());
    } else {
        total_span_remove(runs.drop_last(), i);
        assert(runs.remove(i).drop_last() =~= runs.drop_last().remove(i));
        assert(runs.remove(i).last() == runs.last());
    }
}

/// The total length of running intervals does not depend on their order.
pub proof fn total_span_is_order_independent(a: Seq<(u64, u64)>, b: Seq<(u64, u64)>)
    requires
        a.to_multiset() == b.to_multiset(),
    ensures
        total_span(a) == total_span(b),
    decreases a.len(),
{
    to_multiset_len(a);
    to_multiset_len(b);
    if a.len() > 0 {
        let last: (u64, u64) = a.last();
        to_multiset_contains(a, last);
        to_multiset_contains(b, last);
        assert(a[a.len() - 1] == last);
        let i: int = choose|i: int| 0 <= i < b.len() && b[i] == last;
        to_multiset_remove(a, a.len() - 1);
        to_multiset_remove(b, i);
        assert(a.remove(a.len() - 1) =~= a.drop_last());
        total_span_is_order_independent(a.drop_last(), b.remove(i));
        total_span_remove(b, i);
    }
}

/// Banked time is order-independent: two histories that hold the same
/// running intervals, in whatever order, leave a paused timer with the same
/// elapsed time.
pub proof fn banked_time_is_order_independent(
    s: App,
    a: Seq<(u64, u64)>,
    b: Seq<(u64, u64)>,
    now: u64,
)
    requires
        !s.running,
        a.to_multiset() == b.to_multiset(),
    ensures
        after_runs(s, a).elapsed_at(now) == after_runs(s, b).elapsed_at(now),
{
    banked_time_is_additive(s, a);
    banked_time_is_additive(s, b);
    total_span_is_order_independent(a, b);
}

/// The count of completed sessions stands one short of a multiple of the
/// long-break interval.
pub open spec fn one_short_of_round(s: App) -> bool {
    s.long_break_interval > 0 && s.pomodoro_count as int % s.long_break_interval as int
        == s.long_break_interval - 1
}

/// Leaving a focus session counts it and decides the break by the new
/// count: where the count stood one short of a multiple of the long-break
/// interval, a long break follows and the new count is such a multiple;
/// at every other count, and with an interval of zero, a short break
/// follows. The count is taken not to have reached the largest value a
/// `u64` holds, where it stays.
pub proof fn focus_leads_to_break(s: App)
    requires
        s.phase == Phase::Focus,
        s.pomodoro_count < u64::MAX,
    ensures
        s.after_next_phase().pomodoro_count == s.pomodoro_count + 1,
        one_short_of_round(s) ==> s.after_next_phase().phase == Phase::LongBreak,
        one_short_of_round(s) ==> s.after_next_phase().sessions_in_round() == 0,
        !one_short_of_round(s) ==> s.after_next_phase().phase == Phase::ShortBreak,
{
    let n: int = s.long_break_interval as int;
    let c: int = s.pomodoro_count as int;
    if n > 0 {
        let q: int = c / n;
        lemma_fundamental_div_mod(c, n);
        if c % n == n - 1 {
            assert((q + 1) * n == n * q + n) by (nonlinear_arith);
            lemma_fundamental_div_mod_converse(c + 1, n, q + 1, 0);
        } else {
            assert(q * n == n * q) by (nonlinear_arith);
            lemma_fundamental_div_mod_converse(c + 1, n, q, c % n + 1);
        }
    }
}

/// Either break leads back to focus, whatever the count of completed
/// sessions, and leaves that count as it was.
pub proof fn break_leads_to_focus(s: App)
    requires
        s.phase == Phase::ShortBreak || s.phase == Phase::LongBreak,
    ensures
        s.after_next_phase().phase == Phase::Focus,
        s.after_next_phase().pomodoro_count == s.pomodoro_count,
{
}

/// The count of completed sessions goes up by one when a focus session is
/// left through the phase transition, and changes on no other command.
pub proof fn count_changes_only_on_completed_focus(s: App, command: Command, now: u64)
    ensures
        command == Command::NextPhase && s.phase == Phase::Focus && s.pomodoro_count < u64::MAX
            ==> s.after_command(command, now).pomodoro_count == s.pomodoro_count + 1,
        !(command == Command::NextPhase && s.phase == Phase::Focus) ==> s.after_command(
            command,
            now,
        ).pomodoro_count == s.pomodoro_count,
{
}

/// When a tick finds a running timer with nothing left, the engine is in
/// the next phase afterwards, still running, with nothing elapsed as of the
/// tick; at any other time a tick changes nothing.
pub proof fn tick_keeps_running(s: App, now: u64)
    ensures
        s.completed_at(now) ==> s.after_tick(now).running && s.after_tick(now).elapsed_at(now)
            == 0 && s.after_tick(now).phase == s.phase_after(),
        !s.completed_at(now) ==> s.after_tick(now) == s,
{
}

/// The settings cursor runs in a circle of three: down and up undo each
/// other, and three steps either way lead back to the start.
pub proof fn cursor_is_cyclic(c: SettingSelection)
    ensures
        c.next().prev() == c,
        c.prev().next() == c,
        c.next().next().next() == c,
        c.prev().prev().prev() == c,
        c.next() != c,
        c.prev() != c,
{
}

/// Switching the view twice leads back to the view that was on screen.
pub proof fn switch_tab_twice_is_identity(s: App)
    ensures
        s.after_switch_tab().after_switch_tab() == s,
        s.after_switch_tab().current_tab != s.current_tab,
{
}

/// The configured length that the cursor position `which` stands for.
pub open spec fn minutes_of(s: App, which: SettingSelection) -> u64 {
    match which {
        SettingSelection::FocusTime => s.cfg_focus,
        SettingSelection::ShortBreakTime => s.cfg_short,
        SettingSelection::LongBreakTime => s.cfg_long,
    }
}

/// An adjustment puts the selected length into its range, whatever it was
/// before and whatever the delta, and touches no other length: focus ends
/// up in `[1, 120]`, either break in `[1, 60]`.
pub proof fn adjustment_stays_in_range(s: App, delta: i64, other: SettingSelection)
    ensures
        MIN_MINUTES <= minutes_of(s.after_adjust(delta), s.selected_setting)
            <= s.selected_setting.max_minutes(),
        s.selected_setting == SettingSelection::FocusTime ==> s.selected_setting.max_minutes()
            == MAX_FOCUS_MINUTES,
        s.selected_setting != SettingSelection::FocusTime ==> s.selected_setting.max_minutes()
            == MAX_BREAK_MINUTES,
        other != s.selected_setting ==> minutes_of(s.after_adjust(delta), other) == minutes_of(
            s,
            other,
        ),
        s.wf() ==> s.after_adjust(delta).wf(),
{
}

/// Something that happens to the engine: a command, or a tick of the
/// driving loop.
pub enum Event {
    Command(Command),
    Tick,
}

/// The state after `event` happened at the clock reading `now`.
pub open spec fn after_event(s: App, event: Event, now: u64) -> App {
    match event {
        Event::Command(command) => s.after_command(command, now),
        Event::Tick => s.after_tick(now),
    }
}

/// The state after the events of `history` happened in turn, each at the
/// clock reading that goes with it.
pub open spec fn after_history(s: App, history: Seq<(Event, u64)>) -> App
    decreases history.len(),
{
    if history.len() == 0 {
        s
    } else {
        after_event(after_history(s, history.drop_last()), history.last().0, history.last().1)
    }
}

/// No event takes a configured length out of its range, none lowers the
/// count of completed sessions, and none changes the long-break interval.
pub proof fn event_keeps_invariants(s: App, event: Event, now: u64)
    ensures
        s.wf() ==> after_event(s, event, now).wf(),
        after_event(s, event, now).pomodoro_count >= s.pomodoro_count,
        after_event(s, event, now).long_break_interval == s.long_break_interval,
{
}

/// Over any sequence of commands and ticks, with adjustments by deltas of
/// any size among them, the configured lengths stay in their ranges, the
/// count of completed sessions never goes down and the long-break interval
/// stays what it was.
pub proof fn history_keeps_invariants(s: App, history: Seq<(Event, u64)>)
    ensures
        s.wf() ==> after_history(s, history).wf(),
        after_history(s, history).pomodoro_count >= s.pomodoro_count,
        after_history(s, history).long_break_interval == s.long_break_interval,
    decreases history.len(),
{
    if history.len() > 0 {
        history_keeps_invariants(s, history.drop_last());
        event_keeps_invariants(
            after_history(s, history.drop_last()),
            history.last().0,
            history.last().1,
        );
    }
}

/// The engine as started, after any history, has every configured length
/// in its range.
pub proof fn started_engine_stays_in_range(history: Seq<(Event, u64)>)
    ensures
        after_history(App::initial(), history).wf(),
{
    history_keeps_invariants(App::initial(), history);
}

} // verus!
