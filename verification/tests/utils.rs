use glue::utils::CancelableTimer;
use std::time::Duration;

#[test]
fn started_timer_fires_once() {
    let mut timer = CancelableTimer::new(3, Duration::from_millis(20));
    let task = timer.start().unwrap();
    assert_eq!(task.id, 3);
    assert_eq!(task.duration, Duration::from_millis(20));
    assert!(timer.expire());
    assert!(!timer.expire());
}

#[test]
fn cancelled_timer_never_fires() {
    let mut timer = CancelableTimer::new(0, Duration::from_millis(20));
    assert!(timer.start().is_some());
    timer.cancel();
    assert!(!timer.expire());
    assert!(!timer.expire());
    assert!(timer.start().is_none());
    assert!(!timer.expire());
}

#[test]
fn cancel_is_idempotent_and_allowed_after_expiry() {
    let mut timer = CancelableTimer::new(0, Duration::from_secs(1));
    timer.start();
    assert!(timer.expire());
    timer.cancel();
    timer.cancel();
    assert!(!timer.expire());
}

#[test]
fn timer_that_was_not_started_does_not_fire() {
    let mut timer = CancelableTimer::new(9, Duration::from_secs(1));
    assert!(!timer.expire());
    assert_eq!(timer.number(), 9);
    assert_eq!(timer.delay(), Duration::from_secs(1));
}

#[test]
fn timer_can_be_started_again_after_it_fired() {
    let mut timer = CancelableTimer::new(1, Duration::from_secs(1));
    timer.start();
    assert!(timer.expire());
    assert!(timer.start().is_some());
    assert!(timer.expire());
}
