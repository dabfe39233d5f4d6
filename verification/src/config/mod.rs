//! What can be configured, and the values that hold when nothing is.

pub mod settings;

pub use settings::{
    IntegrationSettings, NotificationSettings, Settings, TimerSettings, UiSettings,
};
