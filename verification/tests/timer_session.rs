use std::cell::Cell;

use pomodoro::pomodoro_timer::PomodoroTimer;
use pomodoro::pomodoro_timer::PomodoroTimerImpl;

#[test]
fn session_begins_with_stopped_work_sprint() {
    let notify = || ();
    let t = PomodoroTimerImpl::new(notify);
    assert!(!t.is_running());
    assert_eq!(t.load_remaining_time(), 1500);
    assert_eq!(t.load_elapsed_time(), 0);
}

#[test]
fn start_commands_arm_a_fresh_running_clock() {
    let notify = || ();
    let mut t = PomodoroTimerImpl::new(notify);
    t.start_pomodoro();
    assert!(t.is_running());
    assert_eq!(t.load_remaining_time(), 1500);
    t.start_long_interval();
    assert!(t.is_running());
    assert_eq!(t.load_remaining_time(), 900);
}

#[test]
fn replacing_the_active_clock_resets_elapsed() {
    let notify = || ();
    let mut t = PomodoroTimerImpl::new(notify);
    t.start_pomodoro();
    assert!(t.tick_active(1));
    assert_eq!(t.load_elapsed_time(), 1);
    t.start_short_interval();
    assert_eq!(t.load_elapsed_time(), 0);
    assert_eq!(t.load_remaining_time(), 300);
}

#[test]
fn session_pause_toggle_keeps_elapsed() {
    let notify = || ();
    let mut t = PomodoroTimerImpl::new(notify);
    t.start_short_interval();
    for i in 1..=40i16 {
        t.tick_active(i);
    }
    t.pause_toggle();
    assert!(!t.is_running());
    assert_eq!(t.load_elapsed_time(), 40);
    t.pause_toggle();
    assert!(t.is_running());
    assert_eq!(t.load_elapsed_time(), 40);
}

#[test]
fn session_completion_fires_exactly_once() {
    let hits = Cell::new(0u32);
    let notify = || hits.set(hits.get() + 1);
    let mut t = PomodoroTimerImpl::new(notify);
    t.start_short_interval();
    for i in 1..=300i16 {
        t.tick_active(i);
    }
    assert_eq!(hits.get(), 0);
    assert_eq!(t.load_progress(), 100);
    assert_eq!(hits.get(), 1);
    for _ in 0..50 {
        assert_eq!(t.load_progress(), 100);
        assert_eq!(t.load_remaining_time(), 0);
    }
    assert_eq!(hits.get(), 1);
}

#[test]
fn observations_while_running_never_regress() {
    let notify = || ();
    let mut t = PomodoroTimerImpl::new(notify);
    t.start_long_interval();
    let mut last_progress = 0i8;
    let mut last_remaining = t.load_remaining_time();
    for i in 1..=450i16 {
        t.tick_active(i);
        let p = t.load_progress();
        let r = t.load_remaining_time();
        assert!(p >= last_progress);
        assert!(r <= last_remaining);
        assert_eq!(r + t.load_elapsed_time(), 900);
        last_progress = p;
        last_remaining = r;
    }
    assert_eq!(last_progress, 50);
    assert_eq!(last_remaining, 450);
}

#[test]
fn short_break_pause_resume_scenario() {
    let hits = Cell::new(0u32);
    let notify = || hits.set(hits.get() + 1);
    let mut t = PomodoroTimerImpl::new(notify);
    t.start_short_interval();
    for i in 1..=150i16 {
        assert!(t.tick_active(i));
    }
    assert_eq!(t.load_progress(), 50);
    t.pause_toggle();
    for i in 151..=200i16 {
        assert!(!t.tick_active(i));
    }
    assert_eq!(t.load_progress(), 50);
    t.pause_toggle();
    for i in 151..=300i16 {
        t.tick_active(i);
    }
    assert_eq!(t.load_progress(), 100);
    assert_eq!(hits.get(), 1);
}
