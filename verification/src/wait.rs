//! Sleep and wake-up for workers that wait for a condition or for shutdown.
//!
//! A sleeper counts itself in, notes the number of notifications so far,
//! checks its condition, and sleeps only until that number moves. A notifier
//! moves it before it wakes the sleepers, so no wake-up is lost between a
//! sleeper's last check and its sleep. The caller's condition is checked
//! outside the lock; the loop that repeats these steps until the condition
//! holds is the caller's.

use crate::outside::{new_condvar, new_unit_mutex, notify_all_locked, wait_while_equal};
use crate::padded_type::PaddedAtomicUsize;
use crate::reading::{count_read, flag_read, read_count, read_flag};
use std::sync::atomic::{AtomicBool, Ordering};
use std::sync::{Condvar, Mutex};
use vstd::prelude::*;

verus! {

/// Whether a sleeper is done: `Some(true)` when shutdown is requested (the
/// flag is read first), `Some(false)` when its condition holds, `None` when
/// it is to sleep on.
pub fn sleep_check<P: Fn() -> bool>(predicate: &P, shutdown: &AtomicBool) -> (r: Option<bool>)
    requires
        predicate.requires(()),
    ensures
        r == Some(false) ==> predicate.ensures((), true),
        r is None ==> predicate.ensures((), false),
        r == Some(true) ==> flag_read(shutdown, true),
        r != Some(true) ==> flag_read(shutdown, false),
{
    let stopped = read_flag(shutdown, Ordering::Relaxed);
    assert(flag_read(shutdown, stopped));
    if stopped {
        return Some(true);
    }
    if predicate() {
        Some(false)
    } else {
        None
    }
}

/// Counts the workers asleep on a condition variable, so that wake-ups can
/// be skipped when nobody sleeps.
pub struct SleepNotifier {
    sleepers: PaddedAtomicUsize,
    notifications: PaddedAtomicUsize,
    pair: (Mutex<()>, Condvar),
    worker_count: usize,
}

impl SleepNotifier {
    /// Reading the notification count gave `n`.
    pub closed spec fn notifications_read(&self, n: usize) -> bool {
        count_read(&self.notifications, n)
    }

    pub closed spec fn workers(&self) -> usize {
        self.worker_count
    }

    /// A notifier for `worker_count` workers, none of them asleep.
    pub fn new(worker_count: usize) -> (n: SleepNotifier)
        ensures
            n.workers() == worker_count,
    {
        Self {
            sleepers: PaddedAtomicUsize::new(0),
            notifications: PaddedAtomicUsize::new(0),
            pair: (new_unit_mutex(), new_condvar()),
            worker_count,
        }
    }

    /// Wakes every sleeper; does nothing when no worker counts as asleep.
    pub fn fast_notify(&self) {
        let sleepers = self.sleepers.load(Ordering::SeqCst);
        if sleepers == 0 {
            return;
        }
        self.safe_notify();
    }

    /// Wakes every sleeper: moves the notification count, then notifies while
    /// holding the lock.
    pub fn safe_notify(&self) {
        self.notifications.fetch_add(1, Ordering::SeqCst);
        notify_all_locked(&self.pair);
    }

    /// Counts the calling worker as asleep, before its last check.
    pub fn begin_sleep(&self) {
        self.sleepers.fetch_add(1, Ordering::SeqCst);
    }

    /// Stops counting the calling worker as asleep.
    pub fn end_sleep(&self) {
        self.sleepers.fetch_sub(1, Ordering::SeqCst);
    }

    /// The number of notifications so far, to be read before the last check.
    pub fn notification_count(&self) -> (n: usize)
        ensures
            self.notifications_read(n),
    {
        let n = read_count(&self.notifications, Ordering::SeqCst);
        assert(self.notifications_read(n));
        n
    }

    /// Sleeps until the notification count differs from `seen`; returns at
    /// once where it does already.
    pub fn sleep_unless_notified(&self, seen: usize) {
        wait_while_equal(&self.pair, &self.notifications, seen);
    }
}

} // verus!
