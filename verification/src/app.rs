//! The program's state and its steps. A step changes the state and says what
//! is to be done outside: an announcement to make, a snapshot to publish.

use crate::config::Settings;
use crate::hyprland::{StatusUpdate, StatusWriter};
use crate::notification::{notice_for, Notice, NotificationManager};
use crate::timer::{Moment, PomodoroTimer, TimerPhase};
use crate::ui::theme::{lowercase_of, Theme};
use vstd::prelude::*;

verus! {

/// What a step leaves to be done outside.
#[derive(Debug, Clone, PartialEq, Eq)]
pub struct Effects {
    /// The phase that the step has brought to its end, if it has.
    pub completed: Option<TimerPhase>,
    /// The announcement to make.
    pub notice: Option<Notice>,
    /// The snapshot to publish.
    pub status: Option<StatusUpdate>,
}

/// The state of the program.
pub struct App {
    pub timer: PomodoroTimer,
    pub theme: Theme,
    pub show_help: bool,
    pub running: bool,
    pub notification_manager: NotificationManager,
    pub status_writer: StatusWriter,
}

impl App {
    /// Whether the end of a phase is announced.
    pub open spec fn notifies(&self) -> bool {
        self.notification_manager.enabled()
    }

    /// Whether snapshots are published.
    pub open spec fn publishes(&self) -> bool {
        self.status_writer.enabled()
    }

    /// Whether `later` differs from this state in its timer at most.
    pub open spec fn same_but_timer(&self, later: &App) -> bool {
        &&& later.theme == self.theme
        &&& later.show_help == self.show_help
        &&& later.running == self.running
        &&& later.notifies() == self.notifies()
        &&& later.publishes() == self.publishes()
    }

    /// Whether `status` is what is to be published of the timer as it
    /// stands: its snapshot, or nothing where none is published.
    pub open spec fn publishes_as(&self, status: Option<StatusUpdate>) -> bool {
        match status {
            Some(update) => self.publishes() && update.describes(&self.timer),
            None => !self.publishes(),
        }
    }

    /// Whether `notice` is what is to be announced when `completed` is the
    /// phase that has ended, if one has.
    pub open spec fn announces_as(
        &self,
        completed: Option<TimerPhase>,
        notice: Option<Notice>,
    ) -> bool {
        notice == match completed {
            Some(phase) => if self.notifies() {
                Some(notice_for(phase))
            } else {
                None
            },
            None => None,
        }
    }

    /// Sets the program up from its settings: the cycle at its beginning,
    /// the theme of the configured name, the help hidden.
    pub fn new(settings: &Settings) -> (app: App)
        requires
            settings.timer.representable(),
        ensures
            app.timer == PomodoroTimer::initial(
                settings.timer.focus_duration,
                settings.timer.short_break_duration,
                settings.timer.long_break_duration,
                settings.timer.cycles_before_long_break,
            ),
            app.timer.wf(),
            app.theme == Theme::for_lowercase(lowercase_of(settings.ui.theme@)),
            !app.show_help,
            app.running,
            app.notifies() == settings.notifications.enabled,
            app.publishes() == settings.integrations.hyprland_status_bar,
    {
        let timer = PomodoroTimer::new(
            settings.timer.focus_duration,
            settings.timer.short_break_duration,
            settings.timer.long_break_duration,
            settings.timer.cycles_before_long_break,
        );
        let theme = Theme::from_name(settings.ui.theme.as_str());
        let notification_manager = NotificationManager::new(settings.notifications.enabled);
        let status_writer = StatusWriter::new(settings.integrations.hyprland_status_bar);
        App {
            timer,
            theme,
            show_help: false,
            running: true,
            notification_manager,
            status_writer,
        }
    }

    /// Start/pause.
    pub fn toggle_pause(&mut self) -> (status: Option<StatusUpdate>)
        requires
            old(self).timer.wf(),
        ensures
            exists|now: Moment| final(self).timer == #[trigger] old(self).timer.toggled(now),
            final(self).timer.wf(),
            old(self).same_but_timer(final(self)),
            final(self).publishes_as(status),
    {
        self.timer.toggle();
        self.update_status()
    }

    /// Gives the current interval its whole length back and halts it.
    pub fn reset(&mut self) -> (status: Option<StatusUpdate>)
        requires
            old(self).timer.wf(),
        ensures
            final(self).timer == old(self).timer.with_timer(
                old(self).timer.current_timer.rewound(),
            ),
            final(self).timer.wf(),
            old(self).same_but_timer(final(self)),
            final(self).publishes_as(status),
    {
        self.timer.reset();
        self.update_status()
    }

    /// Leaves the current phase at once. The phase that was left is the one
    /// that is announced.
    pub fn skip(&mut self) -> (effects: Effects)
        requires
            old(self).timer.wf(),
            old(self).timer.can_advance(),
        ensures
            final(self).timer == old(self).timer.advanced(),
            final(self).timer.wf(),
            old(self).same_but_timer(final(self)),
            effects.completed == Some(old(self).timer.current_timer.phase),
            final(self).announces_as(effects.completed, effects.notice),
            final(self).publishes_as(effects.status),
    {
        let old_phase = self.timer.current_phase();
        self.timer.skip();
        let notice = self.notification_manager.send_phase_complete(old_phase);
        let status = self.update_status();
        Effects { completed: Some(old_phase), notice, status }
    }

    /// Advances the timer by one second. Where that second ends a phase,
    /// that phase is the one that is announced.
    pub fn tick(&mut self) -> (effects: Effects)
        requires
            old(self).timer.wf(),
            old(self).timer.can_tick(),
        ensures
            final(self).timer == old(self).timer.ticked(),
            final(self).timer.wf(),
            old(self).same_but_timer(final(self)),
            effects.completed == if old(self).timer.current_timer.tick_completes() {
                Some(old(self).timer.current_timer.phase)
            } else {
                None
            },
            final(self).announces_as(effects.completed, effects.notice),
            final(self).publishes_as(effects.status),
    {
        let phase = self.timer.current_phase();
        let phase_completed = self.timer.tick();
        let (completed, notice) = if phase_completed {
            (Some(phase), self.notification_manager.send_phase_complete(phase))
        } else {
            (None, None)
        };
        let status = self.update_status();
        Effects { completed, notice, status }
    }

    /// Shows the help, or hides it.
    pub fn toggle_help(&mut self)
        ensures
            final(self).show_help == !old(self).show_help,
            final(self).timer == old(self).timer,
            final(self).theme == old(self).theme,
            final(self).running == old(self).running,
            final(self).notifies() == old(self).notifies(),
            final(self).publishes() == old(self).publishes(),
    {
        self.show_help = !self.show_help;
    }

    /// Ends the program: the loop that drives it stops.
    pub fn quit(&mut self)
        ensures
            !final(self).running,
            final(self).timer == old(self).timer,
            final(self).theme == old(self).theme,
            final(self).show_help == old(self).show_help,
            final(self).notifies() == old(self).notifies(),
            final(self).publishes() == old(self).publishes(),
    {
        self.running = false;
    }

    /// The snapshot of the timer as it stands, if snapshots are published.
    pub fn update_status(&self) -> (status: Option<StatusUpdate>)
        requires
            self.timer.wf(),
        ensures
            self.publishes_as(status),
    {
        self.status_writer.update(&self.timer)
    }
}

} // verus!
