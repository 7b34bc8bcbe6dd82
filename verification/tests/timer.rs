use pomodoro::timer::Config;
use pomodoro::timer::Notification;
use pomodoro::timer::Phase;
use pomodoro::timer::TimerState;
use pomodoro::timer::init;
use pomodoro::timer::tick;
use pomodoro::timer::toggle_pause;

fn cfg(work: u16, short: u16, long: u16) -> Config {
    Config { work, short, long }
}

#[test]
fn initial_state() {
    let c = cfg(1500, 300, 1200);
    let s = init(&c);
    assert_eq!(s.phase, Phase::Work);
    assert_eq!(s.remaining_seconds, 1500);
    assert_eq!(s.completed_work_rounds, 1);
    assert!(s.playing);
}

#[test]
fn tick_decrements_while_playing() {
    let c = cfg(3, 2, 5);
    let mut s = init(&c);
    let fired = tick(&mut s, &c);
    assert_eq!(fired, None);
    assert_eq!(s.phase, Phase::Work);
    assert_eq!(s.remaining_seconds, 2);
    assert_eq!(s.completed_work_rounds, 1);
}

#[test]
fn tick_is_a_no_op_while_paused() {
    let c = cfg(3, 2, 5);
    let mut s = init(&c);
    toggle_pause(&mut s);
    let before = s;
    for _ in 0..10 {
        let fired = tick(&mut s, &c);
        assert_eq!(fired, None);
    }
    assert_eq!(s, before);
}

#[test]
fn pause_resume_does_not_drift() {
    let c = cfg(30, 2, 5);
    let mut never_paused = init(&c);
    let mut paused = init(&c);
    toggle_pause(&mut paused);
    for _ in 0..7 {
        let fired = tick(&mut paused, &c);
        assert_eq!(fired, None);
    }
    toggle_pause(&mut paused);
    assert_eq!(paused, never_paused);
    assert_eq!(tick(&mut paused, &c), None);
    assert_eq!(tick(&mut never_paused, &c), None);
    assert_eq!(paused.remaining_seconds, never_paused.remaining_seconds);
}

#[test]
fn toggle_twice_restores_playing() {
    let c = cfg(3, 2, 5);
    let mut s = init(&c);
    let before = s;
    toggle_pause(&mut s);
    assert!(!s.playing);
    toggle_pause(&mut s);
    assert_eq!(s, before);
}

#[test]
fn work_completion_enters_short_break() {
    let c = cfg(3, 2, 5);
    let mut s = TimerState {
        phase: Phase::Work,
        remaining_seconds: 1,
        completed_work_rounds: 2,
        playing: true,
    };
    let fired = tick(&mut s, &c);
    assert_eq!(fired, Some(Notification::ShortBreakStart));
    assert_eq!(s.phase, Phase::ShortBreak);
    assert_eq!(s.remaining_seconds, 2);
    assert_eq!(s.completed_work_rounds, 3);
}

#[test]
fn fourth_round_work_completion_enters_long_break() {
    let c = cfg(3, 2, 5);
    let mut s = TimerState {
        phase: Phase::Work,
        remaining_seconds: 1,
        completed_work_rounds: 4,
        playing: true,
    };
    let fired = tick(&mut s, &c);
    assert_eq!(fired, Some(Notification::LongBreakStart));
    assert_eq!(s.phase, Phase::LongBreak);
    assert_eq!(s.remaining_seconds, 5);
    assert_eq!(s.completed_work_rounds, 0);
}

#[test]
fn short_break_completion_reenters_work() {
    let c = cfg(3, 2, 5);
    let mut s = TimerState {
        phase: Phase::ShortBreak,
        remaining_seconds: 1,
        completed_work_rounds: 3,
        playing: true,
    };
    let fired = tick(&mut s, &c);
    assert_eq!(fired, Some(Notification::WorkStart));
    assert_eq!(s.phase, Phase::Work);
    assert_eq!(s.remaining_seconds, 3);
    assert_eq!(s.completed_work_rounds, 3);
}

#[test]
fn long_break_completion_reenters_work() {
    let c = cfg(3, 2, 5);
    let mut s = TimerState {
        phase: Phase::LongBreak,
        remaining_seconds: 1,
        completed_work_rounds: 0,
        playing: true,
    };
    let fired = tick(&mut s, &c);
    assert_eq!(fired, Some(Notification::WorkStart));
    assert_eq!(s.phase, Phase::Work);
    assert_eq!(s.remaining_seconds, 3);
    assert_eq!(s.completed_work_rounds, 0);
}

#[test]
fn remaining_seconds_never_rests_at_zero() {
    let c = cfg(3, 2, 5);
    let mut s = init(&c);
    for _ in 0..100 {
        tick(&mut s, &c);
        assert!(s.remaining_seconds >= 1);
    }
}

#[test]
fn round_rule_full_cycle() {
    let c = cfg(3, 2, 5);
    let mut s = init(&c);
    let mut fired_so_far: Vec<Notification> = Vec::new();
    // Run until the long break starts, recording every notification.
    for _ in 0..1000 {
        if let Some(n) = tick(&mut s, &c) {
            fired_so_far.push(n);
            if n == Notification::LongBreakStart {
                break;
            }
        }
    }
    // Three short breaks, each followed by a work start, then the long break.
    assert_eq!(
        fired_so_far,
        vec![
            Notification::ShortBreakStart,
            Notification::WorkStart,
            Notification::ShortBreakStart,
            Notification::WorkStart,
            Notification::ShortBreakStart,
            Notification::WorkStart,
            Notification::LongBreakStart,
        ]
    );
    assert_eq!(s.phase, Phase::LongBreak);
    assert_eq!(s.completed_work_rounds, 0);
}

#[test]
fn notification_messages() {
    assert_eq!(Notification::WorkStart.message(), "Work start!");
    assert_eq!(Notification::ShortBreakStart.message(), "Short break start!");
    assert_eq!(Notification::LongBreakStart.message(), "Long break start!");
}
