//! What a session has accumulated: focus and break time, and the number of
//! focus intervals that were completed.

use super::state::TimerPhase;
use crate::text::{decimal, push_decimal, push_two_digits, zero_padded};
use vstd::prelude::*;

verus! {

/// A moment on the wall clock, as three plain numbers.
#[derive(Debug, Clone, Copy, PartialEq, Eq, Structural)]
pub struct Moment {
    /// Whole seconds since 1970-01-01 00:00:00 UTC, leap seconds not counted.
    pub unix_seconds: i64,
    /// Nanoseconds past that second.
    pub subsec_nanos: u32,
    /// Seconds by which local time is ahead of UTC at that moment.
    pub utc_offset_seconds: i32,
}

impl Moment {
    /// The first moment of 1970 in UTC.
    pub open spec fn epoch() -> Moment {
        Moment { unix_seconds: 0, subsec_nanos: 0, utc_offset_seconds: 0 }
    }
}

/// chrono's `Local::now`, read through `timestamp`, `timestamp_subsec_nanos`
/// and `offset().local_minus_utc()`: the moment of the call on the machine's
/// clock. Nothing is claimed of the moment that comes back. chrono stops the
/// program if the clock stands before 1970.
#[verifier::external_body]
fn local_now() -> (now: Moment) {
    let now = chrono::Local::now();
    Moment {
        unix_seconds: now.timestamp(),
        subsec_nanos: now.timestamp_subsec_nanos(),
        utc_offset_seconds: now.offset().local_minus_utc(),
    }
}

/// The totals of one run of the program. Times are whole seconds. Nothing
/// here is ever taken back: no operation lowers a total or a count.
#[derive(Debug, Clone, PartialEq, Eq)]
pub struct SessionStats {
    pub total_focus_time: u64,
    pub total_break_time: u64,
    pub sessions_completed: u32,
    pub today_focus_time: u64,
    pub today_sessions: u32,
    pub session_start: Option<Moment>,
}

impl Default for SessionStats {
    fn default() -> (stats: SessionStats)
        ensures
            stats == SessionStats::empty(),
    {
        SessionStats {
            total_focus_time: 0,
            total_break_time: 0,
            sessions_completed: 0,
            today_focus_time: 0,
            today_sessions: 0,
            session_start: None,
        }
    }
}

impl SessionStats {
    /// The statistics of a run in which nothing has happened yet.
    pub open spec fn empty() -> SessionStats {
        SessionStats {
            total_focus_time: 0,
            total_break_time: 0,
            sessions_completed: 0,
            today_focus_time: 0,
            today_sessions: 0,
            session_start: None,
        }
    }

    /// The statistics once the session is known to have started: the first
    /// moment given stays, a later one changes nothing.
    pub open spec fn started_at(&self, now: Moment) -> SessionStats {
        SessionStats {
            total_focus_time: self.total_focus_time,
            total_break_time: self.total_break_time,
            sessions_completed: self.sessions_completed,
            today_focus_time: self.today_focus_time,
            today_sessions: self.today_sessions,
            session_start: if self.session_start is Some {
                self.session_start
            } else {
                Some(now)
            },
        }
    }

    /// Whether one more focus interval of `elapsed` seconds fits the counters.
    pub open spec fn can_record_focus(&self, elapsed: u64) -> bool {
        &&& self.sessions_completed < u32::MAX
        &&& self.today_sessions < u32::MAX
        &&& self.total_focus_time + elapsed <= u64::MAX
        &&& self.today_focus_time + elapsed <= u64::MAX
    }

    /// Whether one more break of `elapsed` seconds fits the counter.
    pub open spec fn can_record_break(&self, elapsed: u64) -> bool {
        self.total_break_time + elapsed <= u64::MAX
    }

    /// The statistics after a focus interval of `elapsed` seconds: one more
    /// session in both counts, `elapsed` more in both focus times.
    pub open spec fn after_focus(&self, elapsed: u64) -> SessionStats {
        SessionStats {
            total_focus_time: (self.total_focus_time + elapsed) as u64,
            total_break_time: self.total_break_time,
            sessions_completed: (self.sessions_completed + 1) as u32,
            today_focus_time: (self.today_focus_time + elapsed) as u64,
            today_sessions: (self.today_sessions + 1) as u32,
            session_start: self.session_start,
        }
    }

    /// The statistics after a break of `elapsed` seconds: `elapsed` more
    /// break time, and nothing else.
    pub open spec fn after_break(&self, elapsed: u64) -> SessionStats {
        SessionStats {
            total_focus_time: self.total_focus_time,
            total_break_time: (self.total_break_time + elapsed) as u64,
            sessions_completed: self.sessions_completed,
            today_focus_time: self.today_focus_time,
            today_sessions: self.today_sessions,
            session_start: self.session_start,
        }
    }

    /// Whether an interval of the given phase and `elapsed` seconds fits the
    /// counters.
    pub open spec fn can_record_phase(&self, phase: TimerPhase, elapsed: u64) -> bool {
        match phase {
            TimerPhase::Focus => self.can_record_focus(elapsed),
            _ => self.can_record_break(elapsed),
        }
    }

    /// The statistics after an interval of the given phase, of which
    /// `elapsed` seconds had gone by.
    pub open spec fn after_phase(&self, phase: TimerPhase, elapsed: u64) -> SessionStats {
        match phase {
            TimerPhase::Focus => self.after_focus(elapsed),
            _ => self.after_break(elapsed),
        }
    }

    /// Whether every total and count is at least what it was in `earlier`,
    /// and a start that was recorded is still the one recorded.
    pub open spec fn not_behind(&self, earlier: SessionStats) -> bool {
        &&& self.total_focus_time >= earlier.total_focus_time
        &&& self.total_break_time >= earlier.total_break_time
        &&& self.sessions_completed >= earlier.sessions_completed
        &&& self.today_focus_time >= earlier.today_focus_time
        &&& self.today_sessions >= earlier.today_sessions
        &&& earlier.session_start is Some ==> self.session_start == earlier.session_start
    }

    /// Today's focus time as text: `<H>h <MM>m` from one hour on, `<M>m`
    /// below. Seconds short of a minute are dropped.
    pub open spec fn today_text(&self) -> Seq<char> {
        let hours = (self.today_focus_time / 3600) as nat;
        let mins = ((self.today_focus_time % 3600) / 60) as nat;
        if hours > 0 {
            decimal(hours) + seq!['h', ' '] + zero_padded(mins, 2) + seq!['m']
        } else {
            decimal(mins) + seq!['m']
        }
    }

    /// Tests whether one more focus interval of `elapsed` seconds fits the
    /// counters.
    pub fn has_room_for_focus(&self, elapsed: u64) -> (fits: bool)
        ensures
            fits == self.can_record_focus(elapsed),
    {
        self.sessions_completed < u32::MAX && self.today_sessions < u32::MAX
            && self.total_focus_time <= u64::MAX - elapsed && self.today_focus_time <= u64::MAX
            - elapsed
    }

    /// Tests whether one more break of `elapsed` seconds fits the counter.
    pub fn has_room_for_break(&self, elapsed: u64) -> (fits: bool)
        ensures
            fits == self.can_record_break(elapsed),
    {
        self.total_break_time <= u64::MAX - elapsed
    }

    /// Records the moment of the call as the start of the session, unless a
    /// start is recorded already.
    pub fn start_session(&mut self)
        ensures
            exists|now: Moment| *final(self) == #[trigger] old(self).started_at(now),
            old(self).session_start is Some ==> *final(self) == *old(self),
            final(self).session_start is Some,
            final(self).not_behind(*old(self)),
    {
        if self.session_start.is_none() {
            let now = local_now();
            self.start_session_at(now);
        } else {
            assert(*self == old(self).started_at(self.session_start.unwrap()));
        }
    }

    /// Records `now` as the start of the session, unless a start is recorded
    /// already.
    pub fn start_session_at(&mut self, now: Moment)
        ensures
            *final(self) == old(self).started_at(now),
    {
        if self.session_start.is_none() {
            self.session_start = Some(now);
        }
    }

    pub fn complete_focus_session(&mut self, elapsed: u64)
        requires
            old(self).can_record_focus(elapsed),
        ensures
            *final(self) == old(self).after_focus(elapsed),
            final(self).sessions_completed == old(self).sessions_completed + 1,
            final(self).today_sessions == old(self).today_sessions + 1,
            final(self).total_focus_time == old(self).total_focus_time + elapsed,
            final(self).today_focus_time == old(self).today_focus_time + elapsed,
            final(self).not_behind(*old(self)),
    {
        self.sessions_completed = self.sessions_completed + 1;
        self.today_sessions = self.today_sessions + 1;
        self.total_focus_time = self.total_focus_time + elapsed;
        self.today_focus_time = self.today_focus_time + elapsed;
    }

    pub fn complete_break_session(&mut self, elapsed: u64)
        requires
            old(self).can_record_break(elapsed),
        ensures
            *final(self) == old(self).after_break(elapsed),
            final(self).total_break_time == old(self).total_break_time + elapsed,
            final(self).not_behind(*old(self)),
    {
        self.total_break_time = self.total_break_time + elapsed;
    }

    pub fn format_today_time(&self) -> (text: String)
        ensures
            text@ == self.today_text(),
    {
        let hours = self.today_focus_time / 3600;
        let mins = (self.today_focus_time % 3600) / 60;
        let mut text = String::new();
        if hours > 0 {
            push_decimal(&mut text, hours);
            text.push('h');
            text.push(' ');
            push_two_digits(&mut text, mins);
        } else {
            push_decimal(&mut text, mins);
        }
        text.push('m');
        text
    }
}

} // verus!
