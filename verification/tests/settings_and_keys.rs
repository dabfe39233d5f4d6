use devchron::config::settings::{
    default_cycles, default_focus_duration, default_long_break, default_short_break,
    default_theme, default_true,
};
use devchron::config::{
    IntegrationSettings, NotificationSettings, Settings, TimerSettings, UiSettings,
};
use devchron::events::{handle_key, Action, Key, KeyInput};

#[test]
fn default_values() {
    assert_eq!(default_focus_duration(), 25);
    assert_eq!(default_short_break(), 5);
    assert_eq!(default_long_break(), 15);
    assert_eq!(default_cycles(), 4);
    assert_eq!(default_theme(), "nord");
    assert!(default_true());
}

#[test]
fn default_timer_settings() {
    let timer = TimerSettings::default();
    assert_eq!(timer.focus_duration, 25);
    assert_eq!(timer.short_break_duration, 5);
    assert_eq!(timer.long_break_duration, 15);
    assert_eq!(timer.cycles_before_long_break, 4);
    assert!(timer.is_representable());
}

#[test]
fn default_sections() {
    assert_eq!(
        NotificationSettings::default(),
        NotificationSettings { enabled: true, sound_enabled: false }
    );
    assert_eq!(UiSettings::default(), UiSettings { theme: "nord".to_string() });
    assert_eq!(IntegrationSettings::default(), IntegrationSettings { hyprland_status_bar: true });
}

#[test]
fn default_settings_hold_the_default_sections() {
    let settings = Settings::default();
    assert_eq!(settings.timer, TimerSettings::default());
    assert_eq!(settings.notifications, NotificationSettings::default());
    assert_eq!(settings.ui, UiSettings::default());
    assert_eq!(settings.integrations, IntegrationSettings::default());
}

#[test]
fn minutes_that_do_not_fit_in_seconds() {
    let limit = u64::MAX / 60;
    let mut timer = TimerSettings::default();
    timer.focus_duration = limit;
    timer.short_break_duration = limit;
    timer.long_break_duration = limit;
    assert!(timer.is_representable());
    timer.focus_duration = limit + 1;
    assert!(!timer.is_representable());
    timer.focus_duration = 1;
    timer.short_break_duration = limit + 1;
    assert!(!timer.is_representable());
    timer.short_break_duration = 1;
    timer.long_break_duration = u64::MAX;
    assert!(!timer.is_representable());
}

fn plain(c: char) -> KeyInput {
    KeyInput { code: Key::Char(c), control: false }
}

fn with_control(c: char) -> KeyInput {
    KeyInput { code: Key::Char(c), control: true }
}

#[test]
fn keys_that_quit() {
    assert_eq!(handle_key(plain('q')), Action::Quit);
    assert_eq!(handle_key(plain('Q')), Action::Quit);
    assert_eq!(handle_key(KeyInput { code: Key::Esc, control: false }), Action::Quit);
    assert_eq!(handle_key(KeyInput { code: Key::Esc, control: true }), Action::Quit);
    assert_eq!(handle_key(with_control('c')), Action::Quit);
    assert_eq!(handle_key(with_control('q')), Action::Quit);
}

#[test]
fn keys_that_start_and_pause() {
    assert_eq!(handle_key(plain(' ')), Action::TogglePause);
    assert_eq!(handle_key(plain('p')), Action::TogglePause);
    assert_eq!(handle_key(plain('P')), Action::TogglePause);
    assert_eq!(handle_key(with_control('p')), Action::TogglePause);
}

#[test]
fn keys_that_reset_skip_and_help() {
    assert_eq!(handle_key(plain('r')), Action::Reset);
    assert_eq!(handle_key(plain('R')), Action::Reset);
    assert_eq!(handle_key(plain('s')), Action::Skip);
    assert_eq!(handle_key(plain('S')), Action::Skip);
    assert_eq!(handle_key(plain('h')), Action::ToggleHelp);
    assert_eq!(handle_key(plain('H')), Action::ToggleHelp);
    assert_eq!(handle_key(plain('?')), Action::ToggleHelp);
}

#[test]
fn keys_without_a_binding() {
    assert_eq!(handle_key(plain('c')), Action::Nothing);
    assert_eq!(handle_key(plain('C')), Action::Nothing);
    assert_eq!(handle_key(with_control('C')), Action::Nothing);
    assert_eq!(handle_key(plain('x')), Action::Nothing);
    assert_eq!(handle_key(with_control('x')), Action::Nothing);
    assert_eq!(handle_key(plain('1')), Action::Nothing);
    assert_eq!(handle_key(KeyInput { code: Key::Other, control: false }), Action::Nothing);
    assert_eq!(handle_key(KeyInput { code: Key::Other, control: true }), Action::Nothing);
}
