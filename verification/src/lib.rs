//! A Pomodoro timer.
//!
//! `timer` holds the core: the countdown of one interval, the statistics of
//! a session, and the cycle of focus intervals and breaks. `app` is the
//! program's state around it: each of its steps changes the state and says
//! what is to be announced and published. The other modules hold what the
//! steps draw on: the settings and their defaults, the key bindings, the
//! announcements, the snapshot for a status bar, and the colours and texts of
//! the screen.
//!
//! Times are whole seconds throughout; one tick is one second.

pub mod app;
pub mod config;
pub mod events;
pub mod hyprland;
pub mod notification;
pub mod text;
pub mod timer;
pub mod ui;
