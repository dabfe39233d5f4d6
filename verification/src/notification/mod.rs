//! What is announced when a phase is over.

use crate::timer::TimerPhase;
use vstd::prelude::*;

verus! {

/// How pressing an announcement is.
#[derive(Debug, Clone, Copy, PartialEq, Eq, Structural)]
pub enum Urgency {
    Low,
    Normal,
}

/// One announcement: its two lines of text, the name of its icon, its
/// urgency, and the time in milliseconds after which it goes away.
#[derive(Debug, Clone, Copy, PartialEq, Eq)]
pub struct Notice {
    pub summary: &'static str,
    pub body: &'static str,
    pub icon: &'static str,
    pub urgency: Urgency,
    pub timeout_ms: u32,
}

/// The announcement for the end of a phase.
pub open spec fn notice_for(phase: TimerPhase) -> Notice {
    match phase {
        TimerPhase::Focus => Notice {
            summary: "🍅 Focus Time Complete!",
            body: "Great work! Time for a break.",
            icon: "clock",
            urgency: Urgency::Normal,
            timeout_ms: 5000,
        },
        TimerPhase::ShortBreak => Notice {
            summary: "☕ Break Over",
            body: "Ready to focus again?",
            icon: "clock",
            urgency: Urgency::Normal,
            timeout_ms: 5000,
        },
        TimerPhase::LongBreak => Notice {
            summary: "🌴 Long Break Complete",
            body: "Feeling refreshed? Let's get back to work!",
            icon: "clock",
            urgency: Urgency::Low,
            timeout_ms: 5000,
        },
    }
}

/// Decides whether the end of a phase is announced.
pub struct NotificationManager {
    enabled: bool,
}

impl NotificationManager {
    /// Whether announcements are made at all.
    pub closed spec fn enabled(&self) -> bool {
        self.enabled
    }

    pub fn new(enabled: bool) -> (manager: NotificationManager)
        ensures
            manager.enabled() == enabled,
    {
        NotificationManager { enabled }
    }

    /// What to send now that `phase` is over: the announcement that belongs
    /// to the phase, or nothing where announcements are switched off. The
    /// caller delivers it.
    pub fn send_phase_complete(&self, phase: TimerPhase) -> (notice: Option<Notice>)
        ensures
            notice == if self.enabled() {
                Some(notice_for(phase))
            } else {
                None
            },
    {
        if !self.enabled {
            return None;
        }
        let (summary, body, urgency) = match phase {
            TimerPhase::Focus => (
                "🍅 Focus Time Complete!",
                "Great work! Time for a break.",
                Urgency::Normal,
            ),
            TimerPhase::ShortBreak => ("☕ Break Over", "Ready to focus again?", Urgency::Normal),
            TimerPhase::LongBreak => (
                "🌴 Long Break Complete",
                "Feeling refreshed? Let's get back to work!",
                Urgency::Low,
            ),
        };
        Some(Notice { summary, body, icon: "clock", urgency, timeout_ms: 5000 })
    }
}

} // verus!
