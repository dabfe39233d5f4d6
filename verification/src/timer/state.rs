//! One interval: its phase, its state and the seconds left on it.

use crate::text::{push_two_digits, zero_padded};
use vstd::prelude::*;

verus! {

/// Whether an interval is counting down, halted, or has run out.
#[derive(Debug, Clone, Copy, PartialEq, Eq, Structural)]
pub enum TimerState {
    Running,
    Paused,
    Completed,
}

/// The kind of interval that is active.
#[derive(Debug, Clone, Copy, PartialEq, Eq, Structural)]
pub enum TimerPhase {
    Focus,
    ShortBreak,
    LongBreak,
}

impl TimerPhase {
    /// The name under which a phase is shown.
    pub open spec fn display_name_text(&self) -> Seq<char> {
        match self {
            TimerPhase::Focus => "Focus Time"@,
            TimerPhase::ShortBreak => "Short Break"@,
            TimerPhase::LongBreak => "Long Break"@,
        }
    }

    /// The symbol shown beside a phase's name.
    pub open spec fn emoji_text(&self) -> Seq<char> {
        match self {
            TimerPhase::Focus => "\u{f0}\u{178}\u{2026}"@,
            TimerPhase::ShortBreak => "\u{e2}\u{2dc}\u{2022}"@,
            TimerPhase::LongBreak => "\u{f0}\u{178}\u{152}\u{b4}"@,
        }
    }

    pub fn display_name(&self) -> (name: &str)
        ensures
            name@ == self.display_name_text(),
    {
        match self {
            TimerPhase::Focus => "Focus Time",
            TimerPhase::ShortBreak => "Short Break",
            TimerPhase::LongBreak => "Long Break",
        }
    }

    pub fn emoji(&self) -> (symbol: &str)
        ensures
            symbol@ == self.emoji_text(),
    {
        match self {
            TimerPhase::Focus => "\u{f0}\u{178}\u{2026}",
            TimerPhase::ShortBreak => "\u{e2}\u{2dc}\u{2022}",
            TimerPhase::LongBreak => "\u{f0}\u{178}\u{152}\u{b4}",
        }
    }
}

/// A countdown over one interval. `duration` and `remaining` are whole
/// seconds; one tick is one second.
#[derive(Debug, Clone, PartialEq, Eq)]
pub struct Timer {
    pub phase: TimerPhase,
    pub state: TimerState,
    pub duration: u64,
    pub remaining: u64,
}

impl Timer {
    /// No more is left on a timer than its interval is long.
    pub open spec fn wf(&self) -> bool {
        self.remaining <= self.duration
    }

    /// A timer that has not started: halted, with its whole interval left.
    pub open spec fn fresh(phase: TimerPhase, duration: u64) -> Timer {
        Timer { phase, state: TimerState::Paused, duration, remaining: duration }
    }

    /// The same timer in another state.
    pub open spec fn with_state(&self, state: TimerState) -> Timer {
        Timer { phase: self.phase, state, duration: self.duration, remaining: self.remaining }
    }

    /// The timer after a reset: halted, with its whole interval left again.
    pub open spec fn rewound(&self) -> Timer {
        Timer::fresh(self.phase, self.duration)
    }

    /// Whether the next tick is the one on which the interval runs out.
    pub open spec fn tick_completes(&self) -> bool {
        self.state == TimerState::Running && self.remaining <= 1
    }

    /// The timer one tick later. Only a running timer moves; its last second
    /// takes it to zero and to `Completed`, never below zero.
    pub open spec fn ticked(&self) -> Timer {
        if self.state != TimerState::Running {
            *self
        } else if self.remaining > 1 {
            Timer {
                phase: self.phase,
                state: TimerState::Running,
                duration: self.duration,
                remaining: (self.remaining - 1) as u64,
            }
        } else {
            Timer {
                phase: self.phase,
                state: TimerState::Completed,
                duration: self.duration,
                remaining: 0,
            }
        }
    }

    /// The timer `k` ticks later.
    pub open spec fn ticked_times(&self, k: nat) -> Timer
        decreases k,
    {
        if k == 0 {
            *self
        } else {
            self.ticked_times((k - 1) as nat).ticked()
        }
    }

    /// The share of the interval that has elapsed, in whole percent, rounded
    /// down. An interval of no length counts as not begun.
    pub open spec fn percentage(&self) -> nat {
        if self.duration == 0 {
            0
        } else {
            (100 * (self.duration - self.remaining) / (self.duration as int)) as nat
        }
    }

    /// What is left as minutes and seconds, `MM:SS`, each on two digits at
    /// least. There is no hour field: the minutes grow past 59.
    pub open spec fn time_text(&self) -> Seq<char> {
        zero_padded((self.remaining / 60) as nat, 2) + seq![':'] + zero_padded(
            (self.remaining % 60) as nat,
            2,
        )
    }

    pub fn new(phase: TimerPhase, duration: u64) -> (timer: Timer)
        ensures
            timer == Timer::fresh(phase, duration),
            timer.remaining == duration,
            timer.duration == duration,
            timer.state == TimerState::Paused,
            timer.percentage() == 0,
            timer.wf(),
    {
        Timer { phase, state: TimerState::Paused, duration, remaining: duration }
    }

    pub fn start(&mut self)
        ensures
            *final(self) == old(self).with_state(TimerState::Running),
            final(self).remaining == old(self).remaining,
            old(self).wf() ==> final(self).wf(),
    {
        self.state = TimerState::Running;
    }

    pub fn pause(&mut self)
        ensures
            *final(self) == old(self).with_state(TimerState::Paused),
            final(self).remaining == old(self).remaining,
            old(self).wf() ==> final(self).wf(),
    {
        self.state = TimerState::Paused;
    }

    pub fn reset(&mut self)
        ensures
            *final(self) == old(self).rewound(),
            final(self).remaining == old(self).duration,
            final(self).state == TimerState::Paused,
            final(self).wf(),
    {
        self.remaining = self.duration;
        self.state = TimerState::Paused;
    }

    /// Advances the countdown by one second and says whether the interval
    /// has just run out.
    pub fn tick(&mut self) -> (completed: bool)
        ensures
            *final(self) == old(self).ticked(),
            completed == old(self).tick_completes(),
            old(self).state != TimerState::Running ==> !completed && *final(self) == *old(self),
            completed ==> final(self).remaining == 0 && final(self).state
                == TimerState::Completed,
            old(self).state == TimerState::Running && !completed ==> final(self).remaining
                == old(self).remaining - 1 && final(self).remaining >= 1,
            old(self).wf() ==> final(self).wf(),
    {
        if !self.is_running() {
            return false;
        }
        if self.remaining > 1 {
            self.remaining = self.remaining - 1;
            false
        } else {
            self.remaining = 0;
            self.state = TimerState::Completed;
            true
        }
    }

    pub fn is_running(&self) -> (running: bool)
        ensures
            running == (self.state == TimerState::Running),
    {
        self.state == TimerState::Running
    }

    pub fn is_completed(&self) -> (completed: bool)
        ensures
            completed == (self.state == TimerState::Completed),
    {
        self.state == TimerState::Completed
    }

    pub fn percentage_complete(&self) -> (percent: u16)
        requires
            self.wf(),
        ensures
            percent == self.percentage(),
            percent <= 100,
    {
        if self.duration == 0 {
            return 0;
        }
        let elapsed: u128 = (self.duration - self.remaining) as u128;
        let total: u128 = self.duration as u128;
        assert(0 <= 100 * elapsed / (total as int) <= 100) by (nonlinear_arith)
            requires
                0 <= elapsed <= total,
                total > 0,
        ;
        let percent: u128 = 100 * elapsed / total;
        percent as u16
    }

    pub fn format_time(&self) -> (text: String)
        ensures
            text@ == self.time_text(),
    {
        let mut text = String::new();
        push_two_digits(&mut text, self.remaining / 60);
        text.push(':');
        push_two_digits(&mut text, self.remaining % 60);
        text
    }
}

/// Ticks do not change what kind of interval a timer counts, nor its length,
/// and keep what is left within that length.
pub proof fn lemma_ticks_keep_interval(timer: Timer, k: nat)
    ensures
        timer.ticked_times(k).phase == timer.phase,
        timer.ticked_times(k).duration == timer.duration,
        timer.ticked_times(k).remaining <= timer.remaining,
        timer.wf() ==> timer.ticked_times(k).wf(),
    decreases k,
{
    if k > 0 {
        lemma_ticks_keep_interval(timer, (k - 1) as nat);
    }
}

/// A timer that is not running stands still, however often it is ticked.
pub proof fn lemma_idle_ticks(timer: Timer, k: nat)
    requires
        timer.state != TimerState::Running,
    ensures
        timer.ticked_times(k) == timer,
        !timer.ticked_times(k).tick_completes(),
    decreases k,
{
    if k > 0 {
        lemma_idle_ticks(timer, (k - 1) as nat);
    }
}

/// While a running timer has more ticks ahead than have been made, it is
/// still running, each tick has taken one second, and only the tick that
/// takes the last second completes.
pub proof fn lemma_running_ticks(timer: Timer, k: nat)
    requires
        timer.state == TimerState::Running,
        k < timer.remaining,
    ensures
        timer.ticked_times(k).state == TimerState::Running,
        timer.ticked_times(k).remaining == timer.remaining - k,
        timer.ticked_times(k).tick_completes() == (k == timer.remaining - 1),
    decreases k,
{
    if k > 0 {
        lemma_running_ticks(timer, (k - 1) as nat);
    }
}

/// A started timer over `n` seconds answers `false` to each of its first
/// `n - 1` ticks and `true` to tick `n`, after which nothing is left and it is
/// `Completed`.
pub proof fn lemma_countdown(phase: TimerPhase, n: u64)
    requires
        n >= 1,
    ensures
        ({
            let timer = Timer::fresh(phase, n).with_state(TimerState::Running);
            &&& forall|k: nat| k < n - 1 ==> !(#[trigger] timer.ticked_times(k)).tick_completes()
            &&& timer.ticked_times((n - 1) as nat).tick_completes()
            &&& timer.ticked_times(n as nat).remaining == 0
            &&& timer.ticked_times(n as nat).state == TimerState::Completed
        }),
{
    let timer = Timer::fresh(phase, n).with_state(TimerState::Running);
    assert forall|k: nat| k < n - 1 implies !(#[trigger] timer.ticked_times(k)).tick_completes() by {
        lemma_running_ticks(timer, k);
    }
    lemma_running_ticks(timer, (n - 1) as nat);
}

/// A reset after any number of ticks, from any state, gives back the whole
/// interval and halts the timer.
pub proof fn lemma_reset_after_ticks(timer: Timer, k: nat)
    ensures
        timer.ticked_times(k).rewound().remaining == timer.duration,
        timer.ticked_times(k).rewound().state == TimerState::Paused,
        timer.ticked_times(k).rewound() == Timer::fresh(timer.phase, timer.duration),
{
    lemma_ticks_keep_interval(timer, k);
}

} // verus!
