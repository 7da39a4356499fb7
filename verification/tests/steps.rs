use zero_pool::count::{cursor_short_of, is_zero, took_last, unchanged, wait_outcome};
use zero_pool::queue::{epoch_to_publish, first_look, WorkWait};

#[test]
fn zero_count() {
    assert!(is_zero(0));
    assert!(!is_zero(1));
    assert!(!is_zero(usize::MAX));
}

#[test]
fn last_ones_taken() {
    assert!(took_last(3, 3));
    assert!(took_last(1, 1));
    assert!(!took_last(3, 2));
    assert!(!took_last(0, 1));
}

#[test]
fn counter_unchanged() {
    assert!(unchanged(5, 5));
    assert!(!unchanged(6, 5));
}

#[test]
fn cursor_against_length() {
    assert!(cursor_short_of(0, 1));
    assert!(!cursor_short_of(1, 1));
    assert!(!cursor_short_of(0, 0));
    assert!(!cursor_short_of(9, 3));
}

#[test]
fn outcome_of_timed_wait() {
    assert!(wait_outcome(false, false));
    assert!(wait_outcome(false, true));
    assert!(wait_outcome(true, true));
    assert!(!wait_outcome(true, false));
}

#[test]
fn publish_only_a_new_epoch() {
    assert_eq!(epoch_to_publish(u64::MAX, 0), Some(0));
    assert_eq!(epoch_to_publish(3, 4), Some(4));
    assert_eq!(epoch_to_publish(4, 4), None);
}

#[test]
fn first_look_puts_tasks_before_shutdown() {
    assert!(matches!(first_look(true, true), Some(WorkWait::Work)));
    assert!(matches!(first_look(true, false), Some(WorkWait::Work)));
    assert!(matches!(first_look(false, true), Some(WorkWait::Shutdown)));
    assert!(first_look(false, false).is_none());
}
