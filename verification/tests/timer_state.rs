use devchron::timer::{Timer, TimerPhase, TimerState};

fn running(phase: TimerPhase, seconds: u64) -> Timer {
    let mut timer = Timer::new(phase, seconds);
    timer.start();
    timer
}

#[test]
fn fresh_timer_is_paused_with_everything_left() {
    for duration in [1u64, 2, 59, 60, 1500, u64::MAX] {
        let timer = Timer::new(TimerPhase::Focus, duration);
        assert_eq!(timer.phase, TimerPhase::Focus);
        assert_eq!(timer.state, TimerState::Paused);
        assert_eq!(timer.duration, duration);
        assert_eq!(timer.remaining, duration);
        assert_eq!(timer.percentage_complete(), 0);
        assert!(!timer.is_running());
        assert!(!timer.is_completed());
    }
}

#[test]
fn fresh_timer_keeps_its_phase() {
    assert_eq!(Timer::new(TimerPhase::ShortBreak, 300).phase, TimerPhase::ShortBreak);
    assert_eq!(Timer::new(TimerPhase::LongBreak, 900).phase, TimerPhase::LongBreak);
}

#[test]
fn tick_on_a_paused_timer_does_nothing() {
    let mut timer = Timer::new(TimerPhase::Focus, 10);
    assert!(!timer.tick());
    assert!(!timer.tick());
    assert_eq!(timer.remaining, 10);
    assert_eq!(timer.state, TimerState::Paused);
}

#[test]
fn tick_on_a_completed_timer_does_nothing() {
    let mut timer = running(TimerPhase::Focus, 1);
    assert!(timer.tick());
    assert_eq!(timer.state, TimerState::Completed);
    assert!(!timer.tick());
    assert_eq!(timer.remaining, 0);
    assert_eq!(timer.state, TimerState::Completed);
}

#[test]
fn tick_after_pause_does_nothing() {
    let mut timer = running(TimerPhase::Focus, 10);
    assert!(!timer.tick());
    timer.pause();
    assert_eq!(timer.state, TimerState::Paused);
    assert_eq!(timer.remaining, 9);
    assert!(!timer.tick());
    assert_eq!(timer.remaining, 9);
}

#[test]
fn running_timer_completes_on_its_last_tick() {
    for n in [1u64, 2, 3, 60, 125] {
        let mut timer = running(TimerPhase::Focus, n);
        for k in 1..n {
            assert!(!timer.tick());
            assert_eq!(timer.remaining, n - k);
            assert_eq!(timer.state, TimerState::Running);
        }
        assert!(timer.tick());
        assert_eq!(timer.remaining, 0);
        assert_eq!(timer.state, TimerState::Completed);
        assert!(timer.is_completed());
        assert!(!timer.is_running());
    }
}

#[test]
fn last_second_goes_to_zero_and_not_below() {
    let mut timer = running(TimerPhase::ShortBreak, 2);
    assert!(!timer.tick());
    assert_eq!(timer.remaining, 1);
    assert!(timer.tick());
    assert_eq!(timer.remaining, 0);
    assert_eq!(timer.state, TimerState::Completed);
}

#[test]
fn running_timer_of_no_length_completes_at_once() {
    let mut timer = running(TimerPhase::Focus, 0);
    assert!(timer.tick());
    assert_eq!(timer.remaining, 0);
    assert_eq!(timer.state, TimerState::Completed);
}

#[test]
fn restarted_completed_timer_completes_again() {
    let mut timer = running(TimerPhase::Focus, 1);
    assert!(timer.tick());
    timer.start();
    assert_eq!(timer.state, TimerState::Running);
    assert_eq!(timer.remaining, 0);
    assert!(timer.tick());
    assert_eq!(timer.state, TimerState::Completed);
}

#[test]
fn reset_restores_the_interval_from_any_state() {
    let mut timer = running(TimerPhase::Focus, 5);
    timer.tick();
    timer.tick();
    timer.reset();
    assert_eq!(timer.remaining, 5);
    assert_eq!(timer.state, TimerState::Paused);

    let mut timer = running(TimerPhase::LongBreak, 3);
    for _ in 0..3 {
        timer.tick();
    }
    assert_eq!(timer.state, TimerState::Completed);
    timer.reset();
    assert_eq!(timer.remaining, 3);
    assert_eq!(timer.duration, 3);
    assert_eq!(timer.phase, TimerPhase::LongBreak);
    assert_eq!(timer.state, TimerState::Paused);

    let mut timer = Timer::new(TimerPhase::ShortBreak, 7);
    timer.reset();
    assert_eq!(timer, Timer::new(TimerPhase::ShortBreak, 7));
}

#[test]
fn start_and_pause_keep_what_is_left() {
    let mut timer = running(TimerPhase::Focus, 10);
    timer.tick();
    timer.pause();
    assert_eq!(timer.remaining, 9);
    timer.start();
    assert_eq!(timer.remaining, 9);
    assert!(timer.is_running());
}

#[test]
fn percentage_is_rounded_down() {
    let at = |duration: u64, remaining: u64| {
        Timer { phase: TimerPhase::Focus, state: TimerState::Running, duration, remaining }
            .percentage_complete()
    };
    assert_eq!(at(3, 3), 0);
    assert_eq!(at(3, 2), 33);
    assert_eq!(at(3, 1), 66);
    assert_eq!(at(3, 0), 100);
    assert_eq!(at(1500, 1125), 25);
    assert_eq!(at(1500, 1), 99);
    assert_eq!(at(200, 199), 0);
    assert_eq!(at(100, 71), 29);
    assert_eq!(at(u64::MAX, 0), 100);
    assert_eq!(at(u64::MAX, 1), 99);
    assert_eq!(at(u64::MAX, u64::MAX / 2), 50);
}

#[test]
fn percentage_of_an_interval_of_no_length_is_zero() {
    assert_eq!(Timer::new(TimerPhase::Focus, 0).percentage_complete(), 0);
}

#[test]
fn format_time_pads_minutes_and_seconds() {
    let text = |remaining: u64| {
        Timer { phase: TimerPhase::Focus, state: TimerState::Paused, duration: u64::MAX, remaining }
            .format_time()
    };
    assert_eq!(text(125), "02:05");
    assert_eq!(text(0), "00:00");
    assert_eq!(text(9), "00:09");
    assert_eq!(text(59), "00:59");
    assert_eq!(text(60), "01:00");
    assert_eq!(text(1500), "25:00");
    assert_eq!(text(3599), "59:59");
}

#[test]
fn format_time_has_no_hour_field() {
    let text = |remaining: u64| {
        Timer { phase: TimerPhase::Focus, state: TimerState::Paused, duration: u64::MAX, remaining }
            .format_time()
    };
    assert_eq!(text(3600), "60:00");
    assert_eq!(text(6001), "100:01");
    assert_eq!(text(u64::MAX), "307445734561825860:15");
}

#[test]
fn phases_have_display_names() {
    assert_eq!(TimerPhase::Focus.display_name(), "Focus Time");
    assert_eq!(TimerPhase::ShortBreak.display_name(), "Short Break");
    assert_eq!(TimerPhase::LongBreak.display_name(), "Long Break");
}

#[test]
fn phases_have_symbols() {
    assert_eq!(TimerPhase::Focus.emoji(), "\u{f0}\u{178}\u{2026}");
    assert_eq!(TimerPhase::ShortBreak.emoji(), "\u{e2}\u{2dc}\u{2022}");
    assert_eq!(TimerPhase::LongBreak.emoji(), "\u{f0}\u{178}\u{152}\u{b4}");
    assert_eq!(TimerPhase::Focus.emoji().as_bytes(), [0xc3, 0xb0, 0xc5, 0xb8, 0xe2, 0x80, 0xa6]);
}
