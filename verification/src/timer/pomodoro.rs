//! The Pomodoro cycle: focus intervals followed by short breaks, and by a
//! long break after every so many of them.

use super::session::{Moment, SessionStats};
use super::state::{Timer, TimerPhase, TimerState};
use crate::text::{decimal, push_decimal};
use vstd::prelude::*;

verus! {

/// The state of the cycle: the interval that is counting, how many focus
/// intervals have been completed since the last long break, the configured
/// lengths, and the statistics. Lengths are whole seconds.
#[derive(Debug)]
pub struct PomodoroTimer {
    pub current_timer: Timer,
    pub cycle_count: u32,
    pub cycles_before_long_break: u32,
    pub focus_duration: u64,
    pub short_break_duration: u64,
    pub long_break_duration: u64,
    pub stats: SessionStats,
}

impl PomodoroTimer {
    /// The configured length of an interval of the given phase.
    pub open spec fn phase_duration(&self, phase: TimerPhase) -> u64 {
        match phase {
            TimerPhase::Focus => self.focus_duration,
            TimerPhase::ShortBreak => self.short_break_duration,
            TimerPhase::LongBreak => self.long_break_duration,
        }
    }

    /// The current interval has the length configured for its phase and no
    /// more left than that, and the cycle count stays below the number of
    /// focus intervals that make a long break due.
    pub open spec fn wf(&self) -> bool {
        &&& self.current_timer.wf()
        &&& self.current_timer.duration == self.phase_duration(self.current_timer.phase)
        &&& self.cycle_count == 0 || self.cycle_count < self.cycles_before_long_break
    }

    /// The cycle as it stands at startup: a focus interval that has not
    /// started, no cycle counted, empty statistics.
    pub open spec fn initial(
        focus_mins: u64,
        short_break_mins: u64,
        long_break_mins: u64,
        cycles_before_long_break: u32,
    ) -> PomodoroTimer {
        PomodoroTimer {
            current_timer: Timer::fresh(TimerPhase::Focus, (focus_mins * 60) as u64),
            cycle_count: 0,
            cycles_before_long_break,
            focus_duration: (focus_mins * 60) as u64,
            short_break_duration: (short_break_mins * 60) as u64,
            long_break_duration: (long_break_mins * 60) as u64,
            stats: SessionStats::empty(),
        }
    }

    /// The same cycle with another value for the current interval.
    pub open spec fn with_timer(&self, timer: Timer) -> PomodoroTimer {
        PomodoroTimer {
            current_timer: timer,
            cycle_count: self.cycle_count,
            cycles_before_long_break: self.cycles_before_long_break,
            focus_duration: self.focus_duration,
            short_break_duration: self.short_break_duration,
            long_break_duration: self.long_break_duration,
            stats: self.stats,
        }
    }

    /// The same cycle with other statistics.
    pub open spec fn with_stats(&self, stats: SessionStats) -> PomodoroTimer {
        PomodoroTimer {
            current_timer: self.current_timer,
            cycle_count: self.cycle_count,
            cycles_before_long_break: self.cycles_before_long_break,
            focus_duration: self.focus_duration,
            short_break_duration: self.short_break_duration,
            long_break_duration: self.long_break_duration,
            stats,
        }
    }

    /// How much of the current interval has gone by.
    pub open spec fn elapsed(&self) -> u64 {
        (self.phase_duration(self.current_timer.phase) - self.current_timer.remaining) as u64
    }

    /// Whether the focus interval that is counting is the one after which a
    /// long break is due.
    pub open spec fn long_break_due(&self) -> bool {
        self.cycle_count + 1 >= self.cycles_before_long_break
    }

    /// The phase that follows the current one.
    pub open spec fn next_phase(&self) -> TimerPhase {
        match self.current_timer.phase {
            TimerPhase::Focus => if self.long_break_due() {
                TimerPhase::LongBreak
            } else {
                TimerPhase::ShortBreak
            },
            _ => TimerPhase::Focus,
        }
    }

    /// The cycle count once the current phase is over: a focus interval
    /// counts one more, or starts over at zero when a long break is due; a
    /// break leaves the count alone.
    pub open spec fn next_cycle_count(&self) -> u32 {
        match self.current_timer.phase {
            TimerPhase::Focus => if self.long_break_due() {
                0
            } else {
                (self.cycle_count + 1) as u32
            },
            _ => self.cycle_count,
        }
    }

    /// Whether the statistics have room for the current interval as it
    /// stands.
    pub open spec fn can_advance(&self) -> bool {
        self.stats.can_record_phase(self.current_timer.phase, self.elapsed())
    }

    /// The cycle after the current phase has been left: what had elapsed is
    /// recorded, the count is moved on, and the next interval stands ready,
    /// halted and with its whole length left.
    pub open spec fn advanced(&self) -> PomodoroTimer {
        PomodoroTimer {
            current_timer: Timer::fresh(self.next_phase(), self.phase_duration(self.next_phase())),
            cycle_count: self.next_cycle_count(),
            cycles_before_long_break: self.cycles_before_long_break,
            focus_duration: self.focus_duration,
            short_break_duration: self.short_break_duration,
            long_break_duration: self.long_break_duration,
            stats: self.stats.after_phase(self.current_timer.phase, self.elapsed()),
        }
    }

    /// The cycle after `k` phases in a row have been left.
    pub open spec fn advanced_times(&self, k: nat) -> PomodoroTimer
        decreases k,
    {
        if k == 0 {
            *self
        } else {
            self.advanced_times((k - 1) as nat).advanced()
        }
    }

    /// The cycle one tick later: the current interval is ticked, and left
    /// behind if that tick was its last.
    pub open spec fn ticked(&self) -> PomodoroTimer {
        if self.current_timer.tick_completes() {
            self.with_timer(self.current_timer.ticked()).advanced()
        } else {
            self.with_timer(self.current_timer.ticked())
        }
    }

    /// Whether a tick can be taken: if it is the last of the interval, the
    /// statistics have room for the whole interval.
    pub open spec fn can_tick(&self) -> bool {
        self.current_timer.tick_completes() ==> self.with_timer(
            self.current_timer.ticked(),
        ).can_advance()
    }

    /// The cycle after start/pause was pressed at the moment `now`: a
    /// running interval is halted; a halted or completed one is set running,
    /// and `now` becomes the start of the session if none is recorded.
    pub open spec fn toggled(&self, now: Moment) -> PomodoroTimer {
        if self.current_timer.state == TimerState::Running {
            self.with_timer(self.current_timer.with_state(TimerState::Paused))
        } else {
            self.with_timer(self.current_timer.with_state(TimerState::Running)).with_stats(
                self.stats.started_at(now),
            )
        }
    }

    /// The cycle number as it is shown, counted from one, over the number of
    /// focus intervals per long break.
    pub open spec fn session_text(&self) -> Seq<char> {
        decimal((self.cycle_count + 1) as nat) + seq!['/'] + decimal(
            self.cycles_before_long_break as nat,
        )
    }

    /// Sets up the cycle from lengths in minutes.
    pub fn new(
        focus_mins: u64,
        short_break_mins: u64,
        long_break_mins: u64,
        cycles_before_long_break: u32,
    ) -> (timer: PomodoroTimer)
        requires
            focus_mins * 60 <= u64::MAX,
            short_break_mins * 60 <= u64::MAX,
            long_break_mins * 60 <= u64::MAX,
        ensures
            timer == PomodoroTimer::initial(
                focus_mins,
                short_break_mins,
                long_break_mins,
                cycles_before_long_break,
            ),
            timer.current_timer.phase == TimerPhase::Focus,
            timer.current_timer.state == TimerState::Paused,
            timer.current_timer.remaining == focus_mins * 60,
            timer.wf(),
    {
        let focus_duration = focus_mins * 60;
        PomodoroTimer {
            current_timer: Timer::new(TimerPhase::Focus, focus_duration),
            cycle_count: 0,
            cycles_before_long_break,
            focus_duration,
            short_break_duration: short_break_mins * 60,
            long_break_duration: long_break_mins * 60,
            stats: SessionStats::default(),
        }
    }

    /// Tests `wf`, for callers that cannot prove it.
    pub fn is_well_formed(&self) -> (ok: bool)
        ensures
            ok == self.wf(),
    {
        let configured = match self.current_timer.phase {
            TimerPhase::Focus => self.focus_duration,
            TimerPhase::ShortBreak => self.short_break_duration,
            TimerPhase::LongBreak => self.long_break_duration,
        };
        self.current_timer.remaining <= self.current_timer.duration && self.current_timer.duration
            == configured && (self.cycle_count == 0 || self.cycle_count
            < self.cycles_before_long_break)
    }

    /// Tests whether `skip` may be called: the cycle is well-formed and the
    /// statistics have room for the current interval as it stands.
    pub fn accepts_skip(&self) -> (ok: bool)
        ensures
            ok == (self.wf() && self.can_advance()),
    {
        if !self.is_well_formed() {
            return false;
        }
        let elapsed = self.current_timer.duration - self.current_timer.remaining;
        match self.current_timer.phase {
            TimerPhase::Focus => self.stats.has_room_for_focus(elapsed),
            TimerPhase::ShortBreak | TimerPhase::LongBreak => self.stats.has_room_for_break(
                elapsed,
            ),
        }
    }

    /// Tests whether `tick` may be called: the cycle is well-formed and, if
    /// the tick is the last of the interval, the statistics have room for
    /// the whole interval.
    pub fn accepts_tick(&self) -> (ok: bool)
        ensures
            ok == (self.wf() && self.can_tick()),
    {
        if !self.is_well_formed() {
            return false;
        }
        if self.current_timer.is_running() && self.current_timer.remaining <= 1 {
            match self.current_timer.phase {
                TimerPhase::Focus => self.stats.has_room_for_focus(self.current_timer.duration),
                TimerPhase::ShortBreak | TimerPhase::LongBreak => self.stats.has_room_for_break(
                    self.current_timer.duration,
                ),
            }
        } else {
            true
        }
    }

    /// Start/pause: halts a running interval, sets a halted or completed one
    /// running. The first start of a run is recorded, with the moment of the
    /// call, as the start of the session.
    pub fn toggle(&mut self)
        ensures
            exists|now: Moment| *final(self) == #[trigger] old(self).toggled(now),
            final(self).current_timer.state == if old(self).current_timer.state
                == TimerState::Running {
                TimerState::Paused
            } else {
                TimerState::Running
            },
            final(self).current_timer.remaining == old(self).current_timer.remaining,
            old(self).stats.session_start is Some ==> final(self).stats == old(self).stats,
            final(self).stats.not_behind(old(self).stats),
            old(self).wf() ==> final(self).wf(),
    {
        match self.current_timer.state {
            TimerState::Running => {
                self.current_timer.pause();
                assert(*self == old(self).toggled(Moment::epoch()));
            },
            TimerState::Paused | TimerState::Completed => {
                self.current_timer.start();
                if self.stats.session_start.is_none() {
                    self.stats.start_session();
                }
                assert(*self == old(self).toggled(self.stats.session_start.unwrap()));
            },
        }
    }

    /// Start/pause at the moment `now`.
    pub fn toggle_at(&mut self, now: Moment)
        ensures
            *final(self) == old(self).toggled(now),
            old(self).wf() ==> final(self).wf(),
    {
        match self.current_timer.state {
            TimerState::Running => {
                self.current_timer.pause();
            },
            TimerState::Paused | TimerState::Completed => {
                self.current_timer.start();
                self.stats.start_session_at(now);
            },
        }
    }

    /// Gives the current interval its whole length back and halts it.
    pub fn reset(&mut self)
        ensures
            *final(self) == old(self).with_timer(old(self).current_timer.rewound()),
            final(self).current_timer.remaining == old(self).current_timer.duration,
            final(self).current_timer.state == TimerState::Paused,
            old(self).wf() ==> final(self).wf(),
    {
        self.current_timer.reset();
    }

    /// Leaves the current phase at once, as if its interval had run out,
    /// and records the time that had actually gone by.
    pub fn skip(&mut self)
        requires
            old(self).wf(),
            old(self).can_advance(),
        ensures
            *final(self) == old(self).advanced(),
            final(self).current_timer.phase == old(self).next_phase(),
            final(self).cycle_count == old(self).next_cycle_count(),
            final(self).current_timer.state == TimerState::Paused,
            final(self).stats.not_behind(old(self).stats),
            final(self).wf(),
    {
        self.advance_to_next_phase();
    }

    /// Advances the current interval by one second. When that second was its
    /// last, the phase is left and `true` comes back.
    pub fn tick(&mut self) -> (completed: bool)
        requires
            old(self).wf(),
            old(self).can_tick(),
        ensures
            *final(self) == old(self).ticked(),
            completed == old(self).current_timer.tick_completes(),
            completed ==> final(self).current_timer.phase == old(self).next_phase()
                && final(self).cycle_count == old(self).next_cycle_count()
                && final(self).current_timer.state == TimerState::Paused,
            !completed ==> final(self).current_timer.phase == old(self).current_timer.phase
                && final(self).cycle_count == old(self).cycle_count
                && final(self).stats == old(self).stats,
            final(self).stats.not_behind(old(self).stats),
            final(self).wf(),
    {
        let completed = self.current_timer.tick();
        if completed {
            self.advance_to_next_phase();
            true
        } else {
            false
        }
    }

    fn advance_to_next_phase(&mut self)
        requires
            old(self).wf(),
            old(self).can_advance(),
        ensures
            *final(self) == old(self).advanced(),
            final(self).stats.not_behind(old(self).stats),
            final(self).wf(),
    {
        match self.current_timer.phase {
            TimerPhase::Focus => {
                self.stats.complete_focus_session(
                    self.focus_duration - self.current_timer.remaining,
                );
                self.cycle_count = self.cycle_count + 1;
                if self.cycle_count >= self.cycles_before_long_break {
                    self.cycle_count = 0;
                    self.current_timer = Timer::new(
                        TimerPhase::LongBreak,
                        self.long_break_duration,
                    );
                } else {
                    self.current_timer = Timer::new(
                        TimerPhase::ShortBreak,
                        self.short_break_duration,
                    );
                }
            },
            TimerPhase::ShortBreak | TimerPhase::LongBreak => {
                self.stats.complete_break_session(
                    self.current_timer.duration - self.current_timer.remaining,
                );
                self.current_timer = Timer::new(TimerPhase::Focus, self.focus_duration);
            },
        }
    }

    pub fn current_phase(&self) -> (phase: TimerPhase)
        ensures
            phase == self.current_timer.phase,
    {
        self.current_timer.phase
    }

    pub fn is_running(&self) -> (running: bool)
        ensures
            running == (self.current_timer.state == TimerState::Running),
    {
        self.current_timer.is_running()
    }

    /// The cycle number, counted from one, and the number of focus intervals
    /// per long break: `<cycle>/<cycles>`.
    pub fn session_info(&self) -> (text: String)
        requires
            self.cycle_count < u32::MAX,
        ensures
            text@ == self.session_text(),
    {
        let mut text = String::new();
        push_decimal(&mut text, (self.cycle_count + 1) as u64);
        text.push('/');
        push_decimal(&mut text, self.cycles_before_long_break as u64);
        text
    }
}

/// With at least one focus interval per long break, the cycle count of a
/// well-formed cycle is below that number; and every step of the cycle leads
/// from a well-formed cycle to a well-formed one.
pub proof fn lemma_steps_keep_wf(cycle: PomodoroTimer, now: Moment)
    requires
        cycle.wf(),
    ensures
        cycle.cycles_before_long_break >= 1 ==> cycle.cycle_count < cycle.cycles_before_long_break,
        cycle.toggled(now).wf(),
        cycle.with_timer(cycle.current_timer.rewound()).wf(),
        cycle.advanced().wf(),
        cycle.ticked().wf(),
{
}

/// Where every configured length is at least one second, the current
/// interval of a cycle has time left whenever a step is over: the step that
/// takes its last second replaces it by the next interval. So an interval
/// with nothing left is never one that still counts.
pub proof fn lemma_time_left_between_steps(cycle: PomodoroTimer, now: Moment)
    requires
        cycle.wf(),
        cycle.focus_duration >= 1,
        cycle.short_break_duration >= 1,
        cycle.long_break_duration >= 1,
        cycle.current_timer.remaining >= 1,
        cycle.current_timer.state != TimerState::Completed,
    ensures
        cycle.toggled(now).current_timer.remaining >= 1,
        cycle.toggled(now).current_timer.state != TimerState::Completed,
        cycle.with_timer(cycle.current_timer.rewound()).current_timer.remaining >= 1,
        cycle.advanced().current_timer.remaining >= 1,
        cycle.advanced().current_timer.state == TimerState::Paused,
        cycle.ticked().current_timer.remaining >= 1,
        cycle.ticked().current_timer.state != TimerState::Completed,
{
}

/// When a focus interval is over, by running out or by a skip, the cycle
/// count goes up by one and a short break follows; unless the count thereby
/// reaches the number of focus intervals per long break: then it starts over
/// at zero and a long break follows.
pub proof fn lemma_focus_completion(cycle: PomodoroTimer)
    requires
        cycle.current_timer.phase == TimerPhase::Focus,
    ensures
        cycle.cycle_count + 1 < cycle.cycles_before_long_break ==> {
            &&& cycle.advanced().cycle_count == cycle.cycle_count + 1
            &&& cycle.advanced().current_timer.phase == TimerPhase::ShortBreak
        },
        cycle.cycle_count + 1 >= cycle.cycles_before_long_break ==> {
            &&& cycle.advanced().cycle_count == 0
            &&& cycle.advanced().current_timer.phase == TimerPhase::LongBreak
        },
        cycle.current_timer.tick_completes() ==> {
            &&& cycle.ticked().cycle_count == cycle.advanced().cycle_count
            &&& cycle.ticked().current_timer == cycle.advanced().current_timer
        },
        cycle.can_advance() ==> cycle.advanced().stats.sessions_completed
            == cycle.stats.sessions_completed + 1,
{
}

/// When a break is over, short or long, by running out or by a skip, a
/// focus interval follows and the cycle count is what it was.
pub proof fn lemma_break_completion(cycle: PomodoroTimer)
    requires
        cycle.current_timer.phase != TimerPhase::Focus,
    ensures
        cycle.advanced().current_timer.phase == TimerPhase::Focus,
        cycle.advanced().cycle_count == cycle.cycle_count,
        cycle.advanced().stats.sessions_completed == cycle.stats.sessions_completed,
        cycle.current_timer.tick_completes() ==> {
            &&& cycle.ticked().current_timer.phase == TimerPhase::Focus
            &&& cycle.ticked().cycle_count == cycle.cycle_count
        },
{
}

/// The phase that stands `k` phase changes into a round of `cycles` focus
/// intervals: focus at every even place, a break at every odd one, which is
/// the long break at the last odd place of the round.
pub open spec fn round_phase(cycles: nat, k: nat) -> TimerPhase {
    if k % 2 == 0 {
        TimerPhase::Focus
    } else if k + 1 == 2 * cycles {
        TimerPhase::LongBreak
    } else {
        TimerPhase::ShortBreak
    }
}

/// The cycle count `k` phase changes into a round of `cycles` focus
/// intervals: the number of focus intervals that are over, and zero again
/// from the long break on.
pub open spec fn round_count(cycles: nat, k: nat) -> nat {
    if k + 1 >= 2 * cycles {
        0
    } else {
        (k + 1) / 2
    }
}

/// One round of the cycle. From a focus interval with no cycle counted, the
/// phases follow each other as `round_phase` and `round_count` say: focus
/// and short break in turn, the long break after the last focus interval of
/// the round, and then, after twice as many phase changes as there are focus
/// intervals in a round, a focus interval with no cycle counted again. The
/// configured lengths stay what they are, and every phase begins halted with
/// its whole length left.
pub proof fn lemma_round(cycle: PomodoroTimer, k: nat)
    requires
        cycle.current_timer.phase == TimerPhase::Focus,
        cycle.cycle_count == 0,
        cycle.cycles_before_long_break >= 1,
        k <= 2 * cycle.cycles_before_long_break,
    ensures
        ({
            let at = cycle.advanced_times(k);
            let cycles = cycle.cycles_before_long_break as nat;
            &&& at.current_timer.phase == round_phase(cycles, k)
            &&& at.cycle_count == round_count(cycles, k)
            &&& at.cycles_before_long_break == cycle.cycles_before_long_break
            &&& at.focus_duration == cycle.focus_duration
            &&& at.short_break_duration == cycle.short_break_duration
            &&& at.long_break_duration == cycle.long_break_duration
            &&& k >= 1 ==> at.current_timer == Timer::fresh(
                round_phase(cycles, k),
                cycle.phase_duration(round_phase(cycles, k)),
            )
        }),
    decreases k,
{
    if k > 0 {
        lemma_round(cycle, (k - 1) as nat);
    }
}

/// A skip leads to the same next interval and the same cycle count as
/// letting the interval run out. The two differ in the time that goes into
/// the statistics: a skip records what had gone by when it was made, running
/// out records the whole interval.
pub proof fn lemma_skip_matches_completion(skipped: PomodoroTimer, run_out: PomodoroTimer)
    requires
        skipped.wf(),
        run_out.wf(),
        run_out.current_timer.tick_completes(),
        run_out.current_timer.phase == skipped.current_timer.phase,
        run_out == skipped.with_timer(run_out.current_timer),
    ensures
        skipped.advanced().current_timer == run_out.ticked().current_timer,
        skipped.advanced().cycle_count == run_out.ticked().cycle_count,
        skipped.advanced().stats == skipped.stats.after_phase(
            skipped.current_timer.phase,
            (skipped.current_timer.duration - skipped.current_timer.remaining) as u64,
        ),
        run_out.ticked().stats == skipped.stats.after_phase(
            skipped.current_timer.phase,
            skipped.current_timer.duration,
        ),
{
}

} // verus!
