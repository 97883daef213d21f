use pomodoro::app::{App, AppTab};
use pomodoro::controller::{command_for_key, Command, Effect, Key, ADJUST_STEP};
use pomodoro::notice::Notice;
use pomodoro::phase::Phase;
use pomodoro::settings::SettingSelection;

#[test]
fn global_keys_mean_the_same_in_both_views() {
    for tab in [AppTab::Timer, AppTab::Settings] {
        assert_eq!(command_for_key(tab, Key::Char('q')), Some(Command::Quit));
        assert_eq!(command_for_key(tab, Key::Tab), Some(Command::SwitchTab));
        assert_eq!(command_for_key(tab, Key::Other), None);
        assert_eq!(command_for_key(tab, Key::Char('Q')), None);
        assert_eq!(command_for_key(tab, Key::Char('x')), None);
    }
}

#[test]
fn timer_view_bindings() {
    let tab = AppTab::Timer;
    assert_eq!(command_for_key(tab, Key::Char(' ')), Some(Command::ToggleTimer));
    assert_eq!(command_for_key(tab, Key::Char('n')), Some(Command::NextPhase));
    assert_eq!(command_for_key(tab, Key::Char('r')), Some(Command::ResetTimer));
    assert_eq!(command_for_key(tab, Key::Char('1')), Some(Command::SetPhase(Phase::Focus)));
    assert_eq!(command_for_key(tab, Key::Char('2')), Some(Command::SetPhase(Phase::ShortBreak)));
    assert_eq!(command_for_key(tab, Key::Char('3')), Some(Command::SetPhase(Phase::LongBreak)));
    assert_eq!(command_for_key(tab, Key::Char('4')), None);
    for key in [Key::Up, Key::Down, Key::Left, Key::Right] {
        assert_eq!(command_for_key(tab, key), None);
    }
    for c in ['k', 'j', 'h', 'l'] {
        assert_eq!(command_for_key(tab, Key::Char(c)), None);
    }
}

#[test]
fn settings_view_bindings() {
    let tab = AppTab::Settings;
    assert_eq!(ADJUST_STEP, 5);
    assert_eq!(command_for_key(tab, Key::Up), Some(Command::PrevSetting));
    assert_eq!(command_for_key(tab, Key::Char('k')), Some(Command::PrevSetting));
    assert_eq!(command_for_key(tab, Key::Down), Some(Command::NextSetting));
    assert_eq!(command_for_key(tab, Key::Char('j')), Some(Command::NextSetting));
    assert_eq!(command_for_key(tab, Key::Left), Some(Command::AdjustSetting(-5)));
    assert_eq!(command_for_key(tab, Key::Char('h')), Some(Command::AdjustSetting(-5)));
    assert_eq!(command_for_key(tab, Key::Right), Some(Command::AdjustSetting(5)));
    assert_eq!(command_for_key(tab, Key::Char('l')), Some(Command::AdjustSetting(5)));
    for c in [' ', 'n', 'r', '1', '2', '3'] {
        assert_eq!(command_for_key(tab, Key::Char(c)), None);
    }
}

#[test]
fn apply_carries_out_each_command() {
    let mut app = App::new();
    assert_eq!(app.apply(Command::ToggleTimer, 500), Effect::Nothing);
    assert!(app.running);
    assert_eq!(app.start_time, 500);
    assert_eq!(app.apply(Command::ToggleTimer, 800), Effect::Nothing);
    assert_eq!(app.paused_duration, 300);
    assert_eq!(app.apply(Command::ResetTimer, 900), Effect::Nothing);
    assert_eq!(app.paused_duration, 0);
    assert_eq!(
        app.apply(Command::NextPhase, 900),
        Effect::Notify(Notice::PhaseChanged(Phase::ShortBreak))
    );
    assert_eq!(app.pomodoro_count, 1);
    assert_eq!(app.apply(Command::SetPhase(Phase::LongBreak), 900), Effect::Nothing);
    assert_eq!(app.phase, Phase::LongBreak);
    assert_eq!(app.pomodoro_count, 1);
    assert_eq!(app.apply(Command::SwitchTab, 900), Effect::Nothing);
    assert_eq!(app.current_tab, AppTab::Settings);
    assert_eq!(app.apply(Command::NextSetting, 900), Effect::Nothing);
    assert_eq!(app.selected_setting, SettingSelection::ShortBreakTime);
    assert_eq!(app.apply(Command::AdjustSetting(3), 900), Effect::Nothing);
    assert_eq!(app.cfg_short, 8);
    assert_eq!(app.apply(Command::PrevSetting, 900), Effect::Nothing);
    assert_eq!(app.selected_setting, SettingSelection::FocusTime);
    assert_eq!(app.apply(Command::SwitchTab, 900), Effect::Nothing);
    assert_eq!(app.current_tab, AppTab::Timer);
}

#[test]
fn quit_changes_nothing() {
    let mut app = App::new();
    app.toggle_timer(3);
    let before = app;
    assert_eq!(app.apply(Command::Quit, 1_000), Effect::Quit);
    assert_eq!(app, before);
    assert_eq!(app.handle_key(Key::Char('q'), 2_000), Effect::Quit);
    assert_eq!(app, before);
    app.switch_tab();
    let before = app;
    assert_eq!(app.handle_key(Key::Char('q'), 2_000), Effect::Quit);
    assert_eq!(app, before);
}

#[test]
fn keys_in_the_timer_view() {
    let mut app = App::new();
    assert_eq!(app.handle_key(Key::Char(' '), 1_000), Effect::Nothing);
    assert!(app.running);
    assert_eq!(app.get_elapsed(4_000), 3_000);
    assert_eq!(app.handle_key(Key::Char(' '), 4_000), Effect::Nothing);
    assert!(!app.running);
    assert_eq!(app.get_elapsed(9_000), 3_000);
    assert_eq!(app.handle_key(Key::Char('r'), 9_000), Effect::Nothing);
    assert_eq!(app.get_elapsed(9_000), 0);
    assert_eq!(
        app.handle_key(Key::Char('n'), 9_000),
        Effect::Notify(Notice::PhaseChanged(Phase::ShortBreak))
    );
    assert_eq!(app.handle_key(Key::Char('3'), 9_000), Effect::Nothing);
    assert_eq!(app.phase, Phase::LongBreak);
    assert_eq!(app.handle_key(Key::Char('1'), 9_000), Effect::Nothing);
    assert_eq!(app.phase, Phase::Focus);
    assert_eq!(app.handle_key(Key::Char('2'), 9_000), Effect::Nothing);
    assert_eq!(app.phase, Phase::ShortBreak);
    assert_eq!(app.pomodoro_count, 1);
}

#[test]
fn keys_in_the_settings_view() {
    let mut app = App::new();
    assert_eq!(app.handle_key(Key::Tab, 0), Effect::Nothing);
    assert_eq!(app.current_tab, AppTab::Settings);
    app.handle_key(Key::Right, 0);
    assert_eq!(app.cfg_focus, 30);
    app.handle_key(Key::Char('h'), 0);
    app.handle_key(Key::Left, 0);
    assert_eq!(app.cfg_focus, 20);
    app.handle_key(Key::Down, 0);
    assert_eq!(app.selected_setting, SettingSelection::ShortBreakTime);
    app.handle_key(Key::Char('l'), 0);
    assert_eq!(app.cfg_short, 10);
    app.handle_key(Key::Char('j'), 0);
    assert_eq!(app.selected_setting, SettingSelection::LongBreakTime);
    app.handle_key(Key::Char('k'), 0);
    app.handle_key(Key::Up, 0);
    assert_eq!(app.selected_setting, SettingSelection::FocusTime);
    assert_eq!(app.handle_key(Key::Tab, 0), Effect::Nothing);
    assert_eq!(app.current_tab, AppTab::Timer);
}

#[test]
fn keys_of_the_other_view_do_nothing() {
    let mut app = App::new();
    let before = app;
    for key in [Key::Up, Key::Down, Key::Left, Key::Right, Key::Char('h'), Key::Char('j'), Key::Other] {
        assert_eq!(app.handle_key(key, 77), Effect::Nothing);
        assert_eq!(app, before);
    }
    app.switch_tab();
    let before = app;
    for key in [Key::Char(' '), Key::Char('n'), Key::Char('r'), Key::Char('1'), Key::Other] {
        assert_eq!(app.handle_key(key, 77), Effect::Nothing);
        assert_eq!(app, before);
    }
}

#[test]
fn a_session_driven_by_keys_and_ticks() {
    let mut app = App::new();
    let mut now = 0;
    app.handle_key(Key::Char(' '), now);
    for _ in 0..5_999 {
        now += 250;
        assert_eq!(app.tick(now), None);
        assert_eq!(app.phase, Phase::Focus);
    }
    assert_eq!(now, 1_499_750);
    assert_eq!(app.get_remaining(now), 250);
    assert_eq!(app.remaining_clock(now), (0, 0));
    now += 250;
    assert_eq!(app.tick(now), Some(Notice::PhaseChanged(Phase::ShortBreak)));
    assert!(app.running);
    assert_eq!(app.pomodoro_count, 1);
    assert_eq!(app.remaining_clock(now), (5, 0));
    assert_eq!(app.tick(now + 250), None);
}
