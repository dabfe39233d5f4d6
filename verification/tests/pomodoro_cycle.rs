use devchron::timer::{Moment, PomodoroTimer, TimerPhase, TimerState};

fn run_out(cycle: &mut PomodoroTimer) -> u64 {
    if !cycle.is_running() {
        cycle.toggle();
    }
    let mut ticks = 0;
    loop {
        assert!(cycle.accepts_tick());
        ticks += 1;
        if cycle.tick() {
            return ticks;
        }
    }
}

#[test]
fn new_cycle_starts_with_a_paused_focus_interval() {
    let cycle = PomodoroTimer::new(25, 5, 15, 4);
    assert_eq!(cycle.current_phase(), TimerPhase::Focus);
    assert_eq!(cycle.current_timer.state, TimerState::Paused);
    assert_eq!(cycle.current_timer.remaining, 1500);
    assert_eq!(cycle.current_timer.duration, 1500);
    assert_eq!(cycle.focus_duration, 1500);
    assert_eq!(cycle.short_break_duration, 300);
    assert_eq!(cycle.long_break_duration, 900);
    assert_eq!(cycle.cycle_count, 0);
    assert_eq!(cycle.cycles_before_long_break, 4);
    assert_eq!(cycle.stats.sessions_completed, 0);
    assert_eq!(cycle.stats.session_start, None);
    assert!(!cycle.is_running());
    assert!(cycle.is_well_formed());
}

#[test]
fn toggle_starts_and_pauses() {
    let mut cycle = PomodoroTimer::new(1, 1, 1, 2);
    cycle.toggle();
    assert!(cycle.is_running());
    assert!(cycle.stats.session_start.is_some());
    let start = cycle.stats.session_start;
    assert!(!cycle.tick());
    cycle.toggle();
    assert!(!cycle.is_running());
    assert_eq!(cycle.current_timer.state, TimerState::Paused);
    assert_eq!(cycle.current_timer.remaining, 59);
    assert!(!cycle.tick());
    assert_eq!(cycle.current_timer.remaining, 59);
    cycle.toggle();
    assert!(cycle.is_running());
    assert_eq!(cycle.stats.session_start, start);
}

#[test]
fn toggle_at_records_the_first_start_only() {
    let first = Moment { unix_seconds: 100, subsec_nanos: 1, utc_offset_seconds: -7200 };
    let later = Moment { unix_seconds: 200, subsec_nanos: 2, utc_offset_seconds: -7200 };
    let mut cycle = PomodoroTimer::new(1, 1, 1, 2);
    cycle.toggle_at(first);
    assert!(cycle.is_running());
    assert_eq!(cycle.stats.session_start, Some(first));
    cycle.toggle_at(later);
    assert!(!cycle.is_running());
    assert_eq!(cycle.stats.session_start, Some(first));
    cycle.toggle_at(later);
    assert!(cycle.is_running());
    assert_eq!(cycle.stats.session_start, Some(first));
}

#[test]
fn pausing_records_no_start() {
    let mut cycle = PomodoroTimer::new(1, 1, 1, 2);
    cycle.current_timer.start();
    cycle.toggle_at(Moment { unix_seconds: 5, subsec_nanos: 0, utc_offset_seconds: 0 });
    assert!(!cycle.is_running());
    assert_eq!(cycle.stats.session_start, None);
}

#[test]
fn reset_restores_the_current_interval() {
    let mut cycle = PomodoroTimer::new(1, 1, 1, 2);
    cycle.toggle();
    for _ in 0..10 {
        cycle.tick();
    }
    assert_eq!(cycle.current_timer.remaining, 50);
    cycle.reset();
    assert_eq!(cycle.current_timer.remaining, 60);
    assert_eq!(cycle.current_timer.state, TimerState::Paused);
    assert_eq!(cycle.current_phase(), TimerPhase::Focus);
    assert_eq!(cycle.cycle_count, 0);
    assert_eq!(cycle.stats.sessions_completed, 0);
    assert_eq!(cycle.stats.total_focus_time, 0);
}

#[test]
fn completed_focus_counts_a_cycle_and_gives_a_short_break() {
    let mut cycle = PomodoroTimer::new(1, 2, 3, 4);
    assert_eq!(run_out(&mut cycle), 60);
    assert_eq!(cycle.current_phase(), TimerPhase::ShortBreak);
    assert_eq!(cycle.cycle_count, 1);
    assert_eq!(cycle.current_timer.state, TimerState::Paused);
    assert_eq!(cycle.current_timer.remaining, 120);
    assert_eq!(cycle.current_timer.duration, 120);
    assert_eq!(cycle.stats.sessions_completed, 1);
    assert_eq!(cycle.stats.today_sessions, 1);
    assert_eq!(cycle.stats.total_focus_time, 60);
    assert_eq!(cycle.stats.today_focus_time, 60);
}

#[test]
fn focus_that_reaches_the_limit_gives_a_long_break() {
    let mut cycle = PomodoroTimer::new(1, 2, 3, 1);
    assert_eq!(run_out(&mut cycle), 60);
    assert_eq!(cycle.current_phase(), TimerPhase::LongBreak);
    assert_eq!(cycle.cycle_count, 0);
    assert_eq!(cycle.current_timer.remaining, 180);
    assert_eq!(cycle.stats.sessions_completed, 1);
}

#[test]
fn completed_break_gives_focus_and_keeps_the_count() {
    let mut cycle = PomodoroTimer::new(1, 2, 3, 4);
    run_out(&mut cycle);
    assert_eq!(cycle.cycle_count, 1);
    assert_eq!(run_out(&mut cycle), 120);
    assert_eq!(cycle.current_phase(), TimerPhase::Focus);
    assert_eq!(cycle.cycle_count, 1);
    assert_eq!(cycle.current_timer.remaining, 60);
    assert_eq!(cycle.current_timer.state, TimerState::Paused);
    assert_eq!(cycle.stats.total_break_time, 120);
    assert_eq!(cycle.stats.sessions_completed, 1);
    assert_eq!(cycle.stats.total_focus_time, 60);
}

#[test]
fn completed_long_break_gives_focus_and_keeps_the_count() {
    let mut cycle = PomodoroTimer::new(1, 2, 3, 1);
    run_out(&mut cycle);
    assert_eq!(cycle.current_phase(), TimerPhase::LongBreak);
    assert_eq!(run_out(&mut cycle), 180);
    assert_eq!(cycle.current_phase(), TimerPhase::Focus);
    assert_eq!(cycle.cycle_count, 0);
    assert_eq!(cycle.stats.total_break_time, 180);
}

#[test]
fn new_interval_does_not_start_by_itself() {
    let mut cycle = PomodoroTimer::new(1, 1, 1, 2);
    run_out(&mut cycle);
    assert!(!cycle.is_running());
    assert!(!cycle.tick());
    assert_eq!(cycle.current_timer.remaining, 60);
}

#[test]
fn skip_moves_on_like_completion() {
    let mut skipped = PomodoroTimer::new(1, 2, 3, 2);
    let mut completed = PomodoroTimer::new(1, 2, 3, 2);
    for _ in 0..5 {
        skipped.skip();
        run_out(&mut completed);
        assert_eq!(skipped.current_timer, completed.current_timer);
        assert_eq!(skipped.cycle_count, completed.cycle_count);
        assert_eq!(skipped.stats.sessions_completed, completed.stats.sessions_completed);
    }
    assert_eq!(skipped.current_phase(), TimerPhase::ShortBreak);
    assert_eq!(skipped.cycle_count, 1);
}

#[test]
fn skip_records_the_time_that_went_by() {
    let mut cycle = PomodoroTimer::new(1, 2, 3, 2);
    cycle.toggle();
    for _ in 0..20 {
        cycle.tick();
    }
    cycle.skip();
    assert_eq!(cycle.current_phase(), TimerPhase::ShortBreak);
    assert_eq!(cycle.stats.total_focus_time, 20);
    assert_eq!(cycle.stats.today_focus_time, 20);
    assert_eq!(cycle.stats.sessions_completed, 1);
    cycle.toggle();
    for _ in 0..7 {
        cycle.tick();
    }
    cycle.skip();
    assert_eq!(cycle.current_phase(), TimerPhase::Focus);
    assert_eq!(cycle.stats.total_break_time, 7);
    cycle.skip();
    assert_eq!(cycle.current_phase(), TimerPhase::LongBreak);
    assert_eq!(cycle.cycle_count, 0);
    assert_eq!(cycle.stats.total_focus_time, 20);
    assert_eq!(cycle.stats.sessions_completed, 2);
    cycle.toggle();
    for _ in 0..11 {
        cycle.tick();
    }
    cycle.skip();
    assert_eq!(cycle.stats.total_break_time, 18);
}

#[test]
fn skip_of_a_fresh_interval_records_no_time() {
    let mut cycle = PomodoroTimer::new(25, 5, 15, 4);
    cycle.skip();
    assert_eq!(cycle.stats.total_focus_time, 0);
    assert_eq!(cycle.stats.sessions_completed, 1);
    assert_eq!(cycle.current_phase(), TimerPhase::ShortBreak);
    assert_eq!(cycle.current_timer.state, TimerState::Paused);
}

#[test]
fn two_focus_intervals_lead_to_the_long_break() {
    let mut cycle = PomodoroTimer::new(1, 1, 1, 2);
    assert_eq!(cycle.current_phase(), TimerPhase::Focus);
    assert_eq!(run_out(&mut cycle), 60);
    assert_eq!(cycle.current_phase(), TimerPhase::ShortBreak);
    assert_eq!(cycle.cycle_count, 1);
    assert_eq!(run_out(&mut cycle), 60);
    assert_eq!(cycle.current_phase(), TimerPhase::Focus);
    assert_eq!(cycle.cycle_count, 1);
    assert_eq!(run_out(&mut cycle), 60);
    assert_eq!(cycle.current_phase(), TimerPhase::LongBreak);
    assert_eq!(cycle.cycle_count, 0);
    assert_eq!(cycle.stats.sessions_completed, 2);
    assert_eq!(cycle.stats.today_sessions, 2);
    assert_eq!(cycle.stats.total_focus_time, 120);
    assert_eq!(cycle.stats.total_break_time, 60);
}

#[test]
fn the_cycle_repeats_after_the_long_break() {
    let mut cycle = PomodoroTimer::new(1, 1, 1, 3);
    let mut phases = Vec::new();
    for _ in 0..12 {
        phases.push((cycle.current_phase(), cycle.cycle_count));
        cycle.skip();
        assert!(cycle.is_well_formed());
        assert!(cycle.cycle_count < 3);
    }
    let (focus, short, long) = (TimerPhase::Focus, TimerPhase::ShortBreak, TimerPhase::LongBreak);
    assert_eq!(
        phases,
        vec![
            (focus, 0),
            (short, 1),
            (focus, 1),
            (short, 2),
            (focus, 2),
            (long, 0),
            (focus, 0),
            (short, 1),
            (focus, 1),
            (short, 2),
            (focus, 2),
            (long, 0),
        ]
    );
    assert_eq!(cycle.stats.sessions_completed, 6);
}

#[test]
fn no_cycles_before_the_long_break_means_always_long() {
    let mut cycle = PomodoroTimer::new(1, 1, 1, 0);
    assert!(cycle.is_well_formed());
    cycle.skip();
    assert_eq!(cycle.current_phase(), TimerPhase::LongBreak);
    assert_eq!(cycle.cycle_count, 0);
    assert!(cycle.is_well_formed());
    cycle.skip();
    assert_eq!(cycle.current_phase(), TimerPhase::Focus);
    assert_eq!(cycle.session_info(), "1/0");
}

#[test]
fn session_info_counts_from_one() {
    let mut cycle = PomodoroTimer::new(25, 5, 15, 4);
    assert_eq!(cycle.session_info(), "1/4");
    cycle.skip();
    assert_eq!(cycle.session_info(), "2/4");
    cycle.skip();
    cycle.skip();
    cycle.skip();
    cycle.skip();
    assert_eq!(cycle.session_info(), "4/4");
    cycle.skip();
    assert_eq!(cycle.current_phase(), TimerPhase::Focus);
    assert_eq!(cycle.session_info(), "4/4");
    cycle.skip();
    assert_eq!(cycle.current_phase(), TimerPhase::LongBreak);
    assert_eq!(cycle.session_info(), "1/4");
    assert_eq!(PomodoroTimer::new(25, 5, 15, 12).session_info(), "1/12");
    assert_eq!(PomodoroTimer::new(25, 5, 15, u32::MAX).session_info(), "1/4294967295");
}

#[test]
fn stats_never_go_down() {
    let mut cycle = PomodoroTimer::new(1, 1, 1, 2);
    let mut before = cycle.stats.clone();
    for step in 0..400 {
        match step % 7 {
            0 => cycle.toggle(),
            3 => cycle.reset(),
            5 => cycle.skip(),
            _ => {
                cycle.tick();
            }
        }
        assert!(cycle.stats.total_focus_time >= before.total_focus_time);
        assert!(cycle.stats.total_break_time >= before.total_break_time);
        assert!(cycle.stats.sessions_completed >= before.sessions_completed);
        assert!(cycle.stats.today_focus_time >= before.today_focus_time);
        assert!(cycle.stats.today_sessions >= before.today_sessions);
        assert!(cycle.is_well_formed());
        before = cycle.stats.clone();
    }
}

#[test]
fn well_formedness_is_tested_field_by_field() {
    let cycle = PomodoroTimer::new(1, 2, 3, 2);
    assert!(cycle.is_well_formed());
    let mut broken = PomodoroTimer::new(1, 2, 3, 2);
    broken.current_timer.remaining = 61;
    assert!(!broken.is_well_formed());
    let mut broken = PomodoroTimer::new(1, 2, 3, 2);
    broken.focus_duration = 61;
    assert!(!broken.is_well_formed());
    let mut broken = PomodoroTimer::new(1, 2, 3, 2);
    broken.cycle_count = 2;
    assert!(!broken.is_well_formed());
    let mut fine = PomodoroTimer::new(1, 2, 3, 2);
    fine.cycle_count = 1;
    assert!(fine.is_well_formed());
}

#[test]
fn full_counters_leave_no_room() {
    let mut cycle = PomodoroTimer::new(1, 1, 1, 2);
    assert!(cycle.accepts_skip());
    assert!(cycle.accepts_tick());
    cycle.stats.sessions_completed = u32::MAX;
    assert!(!cycle.accepts_skip());
    assert!(cycle.accepts_tick());
    cycle.toggle();
    cycle.current_timer.remaining = 1;
    assert!(!cycle.accepts_tick());
    cycle.stats.sessions_completed = 0;
    assert!(cycle.accepts_tick());
    cycle.stats.total_focus_time = u64::MAX - 59;
    assert!(!cycle.accepts_tick());
    assert!(cycle.accepts_skip());
    cycle.stats.total_focus_time = u64::MAX - 60;
    assert!(cycle.accepts_tick());
    assert!(cycle.tick());
    assert_eq!(cycle.stats.total_focus_time, u64::MAX);
    cycle.stats.total_break_time = u64::MAX;
    assert!(cycle.accepts_skip());
    cycle.current_timer.remaining = 59;
    assert!(!cycle.accepts_skip());
}

#[test]
fn a_cycle_that_is_not_well_formed_accepts_no_step() {
    let mut cycle = PomodoroTimer::new(1, 1, 1, 2);
    cycle.current_timer.remaining = 61;
    assert!(!cycle.accepts_skip());
    assert!(!cycle.accepts_tick());
    cycle.current_timer.remaining = 60;
    cycle.cycle_count = 2;
    assert!(!cycle.accepts_skip());
    assert!(!cycle.accepts_tick());
    cycle.cycle_count = 1;
    assert!(cycle.accepts_skip());
    assert!(cycle.accepts_tick());
}
