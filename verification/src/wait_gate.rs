//! A gate that threads wait at until a condition holds.
//!
//! A waiter counts itself in, notes the number of notifications so far,
//! checks its condition outside the lock, and sleeps only until that number
//! moves; the loop that repeats these steps is the caller's.

use crate::outside::{new_condvar, new_unit_mutex, notify_all_locked, wait_while_equal};
use crate::padded_type::PaddedAtomicUsize;
use crate::reading::{count_read, read_count};
use std::sync::atomic::Ordering;
use std::sync::{Condvar, Mutex};
use vstd::prelude::*;

verus! {

/// A condition variable with a count of the threads that wait on it, so that
/// a notification can be skipped when nobody waits.
pub struct WaitGate {
    waiters: PaddedAtomicUsize,
    notifications: PaddedAtomicUsize,
    pair: (Mutex<()>, Condvar),
}

impl WaitGate {
    /// Reading the notification count gave `n`.
    pub closed spec fn notifications_read(&self, n: usize) -> bool {
        count_read(&self.notifications, n)
    }

    /// A gate with no waiters.
    pub fn new() -> (g: WaitGate) {
        Self {
            waiters: PaddedAtomicUsize::new(0),
            notifications: PaddedAtomicUsize::new(0),
            pair: (new_unit_mutex(), new_condvar()),
        }
    }

    /// Counts the calling thread as a waiter, before its last check.
    pub fn begin_wait(&self) {
        self.waiters.fetch_add(1, Ordering::SeqCst);
    }

    /// Stops counting the calling thread as a waiter.
    pub fn end_wait(&self) {
        self.waiters.fetch_sub(1, Ordering::SeqCst);
    }

    /// The number of notifications so far, to be read before the last check.
    pub fn notification_count(&self) -> (n: usize)
        ensures
            self.notifications_read(n),
    {
        let n = read_count(&self.notifications, Ordering::SeqCst);
        assert(self.notifications_read(n));
        n
    }

    /// Sleeps until the notification count differs from `seen`; returns at
    /// once where it does already.
    pub fn sleep_unless_notified(&self, seen: usize) {
        wait_while_equal(&self.pair, &self.notifications, seen);
    }

    /// Wakes every waiter; does nothing when no thread counts as waiting.
    pub fn notify_all_if_waiters(&self) {
        if self.waiters.load(Ordering::SeqCst) == 0 {
            return;
        }
        self.notify_all();
    }

    /// Wakes every waiter: moves the notification count, then notifies while
    /// holding the lock.
    pub fn notify_all(&self) {
        self.notifications.fetch_add(1, Ordering::SeqCst);
        notify_all_locked(&self.pair);
    }
}

} // verus!
