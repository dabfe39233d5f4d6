//! The snapshot of the timer that is published for a status bar.

use crate::timer::{PomodoroTimer, TimerPhase, TimerState};
use vstd::prelude::*;

verus! {

/// What a status bar is told: the phase, the time left as text, the cycle
/// as text, whether the timer runs, and how far the interval has come in
/// percent.
#[derive(Debug, Clone, PartialEq, Eq)]
pub struct StatusUpdate {
    pub phase: String,
    pub time_remaining: String,
    pub session: String,
    pub is_running: bool,
    pub percentage_complete: u16,
}

/// The name of a phase in a snapshot.
pub open spec fn phase_name(phase: TimerPhase) -> Seq<char> {
    match phase {
        TimerPhase::Focus => "focus"@,
        TimerPhase::ShortBreak => "short_break"@,
        TimerPhase::LongBreak => "long_break"@,
    }
}

impl StatusUpdate {
    /// Whether the snapshot says of `timer` what is the case.
    pub open spec fn describes(&self, timer: &PomodoroTimer) -> bool {
        &&& self.phase@ == phase_name(timer.current_timer.phase)
        &&& self.time_remaining@ == timer.current_timer.time_text()
        &&& self.session@ == timer.session_text()
        &&& self.is_running == (timer.current_timer.state == TimerState::Running)
        &&& self.percentage_complete == timer.current_timer.percentage()
    }
}

/// Decides whether a snapshot is published.
pub struct StatusWriter {
    enabled: bool,
}

impl StatusWriter {
    /// Whether snapshots are published at all.
    pub closed spec fn enabled(&self) -> bool {
        self.enabled
    }

    pub fn new(enabled: bool) -> (writer: StatusWriter)
        ensures
            writer.enabled() == enabled,
    {
        StatusWriter { enabled }
    }

    /// The snapshot of `timer` to publish, or none where publishing is
    /// switched off.
    pub fn update(&self, timer: &PomodoroTimer) -> (status: Option<StatusUpdate>)
        requires
            self.enabled() ==> timer.current_timer.wf() && timer.cycle_count < u32::MAX,
        ensures
            self.enabled() ==> status is Some && status.unwrap().describes(timer),
            !self.enabled() ==> status is None,
    {
        if !self.enabled {
            return None;
        }
        Some(
            StatusUpdate {
                phase: self.phase_to_string(timer.current_phase()),
                time_remaining: timer.current_timer.format_time(),
                session: timer.session_info(),
                is_running: timer.is_running(),
                percentage_complete: timer.current_timer.percentage_complete(),
            },
        )
    }

    pub fn phase_to_string(&self, phase: TimerPhase) -> (name: String)
        ensures
            name@ == phase_name(phase),
    {
        match phase {
            TimerPhase::Focus => "focus".to_string(),
            TimerPhase::ShortBreak => "short_break".to_string(),
            TimerPhase::LongBreak => "long_break".to_string(),
        }
    }
}

} // verus!
