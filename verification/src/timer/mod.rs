//! The countdown of one interval, the session statistics and the phase
//! state machine built from them.

pub mod pomodoro;
pub mod session;
pub mod state;

pub use pomodoro::PomodoroTimer;
pub use session::{Moment, SessionStats};
pub use state::{Timer, TimerPhase, TimerState};
