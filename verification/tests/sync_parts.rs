use std::sync::atomic::{AtomicBool, Ordering};
use zero_pool::atomic_latch::AtomicLatch;
use zero_pool::padded_atomic;
use zero_pool::padded_type::{PaddedAtomicUsize, PaddedType};
use zero_pool::startup_latch::StartupLatch;
use zero_pool::wait::{sleep_check, SleepNotifier};
use zero_pool::wait_gate::WaitGate;

#[test]
fn padded_counter_operations() {
    let c = padded_atomic::PaddedAtomicUsize::new(5);
    assert_eq!(c.load(Ordering::Relaxed), 5);
    assert_eq!(c.fetch_add(3, Ordering::Relaxed), 5);
    assert_eq!(c.fetch_sub(2, Ordering::Relaxed), 8);
    assert_eq!(c.load(Ordering::Relaxed), 6);
    assert_eq!(std::mem::size_of::<padded_atomic::PaddedAtomicUsize>(), 64);
}

#[test]
fn padded_type_gives_access_to_value() {
    let p: PaddedType<u32, 60> = PaddedType::new_padded(17);
    assert_eq!(*p, 17);
    assert_eq!(std::mem::size_of::<PaddedType<u32, 60>>(), 64);
    let a = PaddedAtomicUsize::new(9);
    assert_eq!(a.load(Ordering::Relaxed), 9);
    assert_eq!(std::mem::size_of::<PaddedAtomicUsize>(), 64);
}

#[test]
fn startup_latch_opens_on_last_signal() {
    let l = StartupLatch::new(2);
    assert!(!l.is_released());
    assert!(!l.count_down());
    assert!(!l.is_released());
    assert!(l.count_down());
    assert!(l.is_released());
    assert!(StartupLatch::new(0).is_released());
}

#[test]
fn atomic_latch_reports_reaching_zero() {
    let l = AtomicLatch::new(3, "owner");
    let m = l.clone();
    assert_eq!(*l.owner_thread(), "owner");
    assert!(!l.is_complete());
    assert!(!m.decrement(2));
    assert!(l.decrement(1));
    assert!(l.is_complete());
    assert!(m.is_complete());
}

#[test]
fn sleep_check_reports_shutdown_first() {
    let off = AtomicBool::new(false);
    let on = AtomicBool::new(true);
    assert_eq!(sleep_check(&|| false, &off), None);
    assert_eq!(sleep_check(&|| true, &off), Some(false));
    assert_eq!(sleep_check(&|| false, &on), Some(true));
    assert_eq!(sleep_check(&|| true, &on), Some(true));
}

#[test]
fn sleep_notifier_counts_notifications() {
    let n = SleepNotifier::new(2);
    assert_eq!(n.notification_count(), 0);
    // nobody sleeps: nothing to wake
    n.fast_notify();
    assert_eq!(n.notification_count(), 0);
    n.begin_sleep();
    n.fast_notify();
    assert_eq!(n.notification_count(), 1);
    n.begin_sleep();
    // every worker asleep: still notified
    n.fast_notify();
    assert_eq!(n.notification_count(), 2);
    n.end_sleep();
    n.end_sleep();
    n.safe_notify();
    assert_eq!(n.notification_count(), 3);
    // a notification after `seen` was read: no sleep
    n.sleep_unless_notified(2);
}

#[test]
fn wait_gate_counts_notifications() {
    let g = WaitGate::new();
    assert_eq!(g.notification_count(), 0);
    g.notify_all_if_waiters();
    assert_eq!(g.notification_count(), 0);
    g.begin_wait();
    g.notify_all_if_waiters();
    assert_eq!(g.notification_count(), 1);
    g.end_wait();
    g.notify_all();
    assert_eq!(g.notification_count(), 2);
    g.sleep_unless_notified(0);
}
