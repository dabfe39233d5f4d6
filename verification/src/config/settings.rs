//! The settings, section by section, each with its defaults.

use vstd::prelude::*;

verus! {

/// All settings.
#[derive(Debug, Clone, PartialEq, Eq)]
pub struct Settings {
    pub timer: TimerSettings,
    pub notifications: NotificationSettings,
    pub ui: UiSettings,
    pub integrations: IntegrationSettings,
}

/// The lengths of the intervals, in minutes, and the number of focus
/// intervals after which the break is a long one.
#[derive(Debug, Clone, Copy, PartialEq, Eq, Structural)]
pub struct TimerSettings {
    pub focus_duration: u64,
    pub short_break_duration: u64,
    pub long_break_duration: u64,
    pub cycles_before_long_break: u32,
}

/// Whether the end of a phase is announced, and whether with a sound.
#[derive(Debug, Clone, Copy, PartialEq, Eq, Structural)]
pub struct NotificationSettings {
    pub enabled: bool,
    pub sound_enabled: bool,
}

/// The name of the colour theme.
#[derive(Debug, Clone, PartialEq, Eq)]
pub struct UiSettings {
    pub theme: String,
}

/// Whether the state is published for a status bar.
#[derive(Debug, Clone, Copy, PartialEq, Eq, Structural)]
pub struct IntegrationSettings {
    pub hyprland_status_bar: bool,
}

impl TimerSettings {
    /// 25 minutes of focus, breaks of 5 and 15 minutes, a long break after
    /// every fourth focus interval.
    pub open spec fn defaults() -> TimerSettings {
        TimerSettings {
            focus_duration: 25,
            short_break_duration: 5,
            long_break_duration: 15,
            cycles_before_long_break: 4,
        }
    }
}

impl TimerSettings {
    /// Whether each length, given in minutes, can be held in seconds.
    pub open spec fn representable(&self) -> bool {
        &&& self.focus_duration * 60 <= u64::MAX
        &&& self.short_break_duration * 60 <= u64::MAX
        &&& self.long_break_duration * 60 <= u64::MAX
    }

    /// Tests `representable`.
    pub fn is_representable(&self) -> (ok: bool)
        ensures
            ok == self.representable(),
    {
        self.focus_duration <= u64::MAX / 60 && self.short_break_duration <= u64::MAX / 60
            && self.long_break_duration <= u64::MAX / 60
    }
}

impl NotificationSettings {
    /// Announcements on, sound off.
    pub open spec fn defaults() -> NotificationSettings {
        NotificationSettings { enabled: true, sound_enabled: false }
    }
}

impl UiSettings {
    /// Whether the theme is the default one, `nord`.
    pub open spec fn is_default(&self) -> bool {
        self.theme@ == "nord"@
    }
}

impl IntegrationSettings {
    /// The status bar is served.
    pub open spec fn defaults() -> IntegrationSettings {
        IntegrationSettings { hyprland_status_bar: true }
    }
}

impl Settings {
    /// Whether every section holds its defaults.
    pub open spec fn is_default(&self) -> bool {
        &&& self.timer == TimerSettings::defaults()
        &&& self.notifications == NotificationSettings::defaults()
        &&& self.ui.is_default()
        &&& self.integrations == IntegrationSettings::defaults()
    }
}

impl Default for Settings {
    fn default() -> (settings: Settings)
        ensures
            settings.is_default(),
    {
        Settings {
            timer: TimerSettings::default(),
            notifications: NotificationSettings::default(),
            ui: UiSettings::default(),
            integrations: IntegrationSettings::default(),
        }
    }
}

impl Default for TimerSettings {
    fn default() -> (settings: TimerSettings)
        ensures
            settings == TimerSettings::defaults(),
    {
        TimerSettings {
            focus_duration: default_focus_duration(),
            short_break_duration: default_short_break(),
            long_break_duration: default_long_break(),
            cycles_before_long_break: default_cycles(),
        }
    }
}

impl Default for NotificationSettings {
    fn default() -> (settings: NotificationSettings)
        ensures
            settings == NotificationSettings::defaults(),
    {
        NotificationSettings { enabled: default_true(), sound_enabled: false }
    }
}

impl Default for UiSettings {
    fn default() -> (settings: UiSettings)
        ensures
            settings.is_default(),
    {
        UiSettings { theme: default_theme() }
    }
}

impl Default for IntegrationSettings {
    fn default() -> (settings: IntegrationSettings)
        ensures
            settings == IntegrationSettings::defaults(),
    {
        IntegrationSettings { hyprland_status_bar: default_true() }
    }
}

/// The focus interval in minutes where none is configured.
pub fn default_focus_duration() -> (minutes: u64)
    ensures
        minutes == 25,
{
    25
}

/// The short break in minutes where none is configured.
pub fn default_short_break() -> (minutes: u64)
    ensures
        minutes == 5,
{
    5
}

/// The long break in minutes where none is configured.
pub fn default_long_break() -> (minutes: u64)
    ensures
        minutes == 15,
{
    15
}

/// The number of focus intervals per long break where none is configured.
pub fn default_cycles() -> (cycles: u32)
    ensures
        cycles == 4,
{
    4
}

/// The theme where none is configured.
pub fn default_theme() -> (name: String)
    ensures
        name@ == "nord"@,
{
    "nord".to_string()
}

/// What a switch is set to that is on unless it is turned off.
pub fn default_true() -> (on: bool)
    ensures
        on,
{
    true
}

} // verus!
