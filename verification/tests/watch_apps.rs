use watch_core::apps::stopwatch::Stopwatch;
use watch_core::apps::timer::CountdownTimer;
use watch_core::apps::{AppInput, AppResult, TouchPoint};

fn touch(y: i32, dt_ms: u32) -> AppInput {
    AppInput { touch: Some(TouchPoint { x: 200, y }), dt_ms }
}

fn idle(dt_ms: u32) -> AppInput {
    AppInput { touch: None, dt_ms }
}

#[test]
fn stopwatch_counts_only_while_running() {
    let mut watch = Stopwatch::new();
    assert_eq!(&watch.time_text(), b"00:00");
    assert_eq!(watch.update(&idle(5_000)), AppResult::Continue);
    assert_eq!(&watch.time_text(), b"00:00");
    watch.update(&touch(400, 1_500));
    assert!(watch.is_running());
    assert_eq!(&watch.time_text(), b"00:01");
    watch.update(&idle(125_000));
    assert_eq!(&watch.time_text(), b"02:06");
}

#[test]
fn stopwatch_resets_only_while_paused() {
    let mut watch = Stopwatch::new();
    watch.update(&touch(400, 3_000));
    watch.update(&touch(300, 0));
    assert_eq!(&watch.time_text(), b"00:03");
    watch.update(&touch(331, 0));
    assert!(!watch.is_running());
    watch.update(&touch(231, 0));
    assert_eq!(&watch.time_text(), b"00:00");
    watch.update(&touch(230, 0));
    assert!(!watch.is_running());
}

#[test]
fn stopwatch_minutes_wrap_at_one_hundred_and_time_saturates() {
    let mut watch = Stopwatch::new();
    watch.update(&touch(400, 100 * 60_000 + 7_000));
    assert_eq!(&watch.time_text(), b"00:07");
    watch.update(&idle(u32::MAX));
    watch.update(&idle(u32::MAX));
    let total = u32::MAX / 1000;
    let text = format!("{:02}:{:02}", (total / 60) % 100, total % 60);
    assert_eq!(&watch.time_text(), text.as_bytes());
}

#[test]
fn timer_adjusts_by_minutes_while_paused() {
    let mut timer = CountdownTimer::new();
    assert_eq!(&timer.time_text(), b"01:00");
    timer.update(&touch(300, 0));
    assert_eq!(&timer.time_text(), b"02:00");
    timer.update(&touch(200, 0));
    timer.update(&touch(200, 0));
    timer.update(&touch(200, 0));
    assert_eq!(&timer.time_text(), b"00:00");
    timer.update(&touch(100, 0));
    assert_eq!(&timer.time_text(), b"00:00");
}

#[test]
fn timer_caps_at_ninety_nine_minutes() {
    let mut timer = CountdownTimer::new();
    for _ in 0..120 {
        timer.update(&touch(300, 0));
    }
    assert_eq!(&timer.time_text(), b"09:00");
    timer.update(&touch(200, 0));
    assert_eq!(&timer.time_text(), b"08:00");
}

#[test]
fn timer_alert_is_raised_at_zero_and_taken_once() {
    let mut timer = CountdownTimer::new();
    timer.update(&touch(400, 59_000));
    assert!(timer.is_running());
    assert_eq!(&timer.time_text(), b"00:01");
    timer.update(&touch(300, 0));
    assert_eq!(&timer.time_text(), b"00:01");
    assert!(!timer.take_alert());
    timer.update(&idle(2_000));
    assert!(!timer.is_running());
    assert_eq!(&timer.time_text(), b"00:00");
    assert!(timer.take_alert());
    assert!(!timer.take_alert());
}

#[test]
fn starting_an_empty_timer_alerts_at_once() {
    let mut timer = CountdownTimer::new();
    timer.update(&touch(200, 0));
    timer.update(&touch(400, 0));
    assert!(!timer.is_running());
    assert!(timer.take_alert());
}
