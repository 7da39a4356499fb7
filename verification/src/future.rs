//! Completion tracking for a submitted batch: a shared count of unfinished
//! tasks, and a lock and condition variable for the threads that wait on it.

use crate::outside::{
    new_condvar, new_unit_mutex, notify_all_locked, wait_timeout_while_nonzero, wait_while_nonzero,
};
use crate::count::{is_zero, took_last, wait_outcome};
use crate::padded_type::PaddedAtomicUsize;
use crate::reading::{count_read, read_count, take_count};
use std::sync::atomic::Ordering;
use std::sync::{Arc, Condvar, Mutex};
use std::time::Duration;
use vstd::prelude::*;

verus! {

/// A cheaply cloned handle on the completion of a batch of tasks.
#[derive(Clone)]
pub struct WorkFuture {
    remaining: Arc<PaddedAtomicUsize>,
    state: Arc<(Mutex<()>, Condvar)>,
}

impl WorkFuture {
    /// Reading the count of unfinished tasks gave `v`.
    pub closed spec fn remaining_read(&self, v: usize) -> bool {
        count_read(&*self.remaining, v)
    }

    /// A future for `task_count` tasks, none of them finished yet.
    pub fn new(task_count: usize) -> (f: WorkFuture) {
        WorkFuture {
            remaining: Arc::new(PaddedAtomicUsize::new(task_count)),
            state: Arc::new((new_unit_mutex(), new_condvar())),
        }
    }

    /// Whether every task has finished: the count of unfinished tasks, read
    /// once, is zero.
    pub fn is_complete(&self) -> (r: bool)
        ensures
            exists|v: usize| #[trigger] self.remaining_read(v) && r == (v == 0),
    {
        let v = read_count(&self.remaining, Ordering::Acquire);
        assert(self.remaining_read(v));
        is_zero(v)
    }

    /// Blocks until every task has finished: it returns only after the count
    /// of unfinished tasks was read as zero.
    pub fn wait(self)
        ensures
            self.remaining_read(0),
    {
        if self.is_complete() {
            return;
        }
        let _last = wait_while_nonzero(&self.state, &self.remaining);
    }

    /// Blocks until every task has finished or about `timeout` has passed.
    /// Returns `true` when every task has finished; after a timeout, whether
    /// they had finished by then.
    pub fn wait_timeout(self, timeout: Duration) -> (r: bool)
        ensures
            r ==> self.remaining_read(0),
    {
        if self.is_complete() {
            return true;
        }
        let timed_out = wait_timeout_while_nonzero(&self.state, &self.remaining, timeout);
        let complete_after = self.is_complete();
        wait_outcome(timed_out, complete_after)
    }

    /// The number of tasks not yet finished, read once.
    pub fn remaining_count(&self) -> (r: usize)
        ensures
            self.remaining_read(r),
    {
        let r = read_count(&self.remaining, Ordering::Relaxed);
        assert(self.remaining_read(r));
        r
    }

    /// Records that `count` more tasks have finished, and wakes the waiting
    /// threads when these were the last ones.
    pub fn complete_many(&self, count: usize) {
        let previous = take_count(&self.remaining, count, Ordering::Release);
        if took_last(previous, count) {
            notify_all_locked(&self.state);
        }
    }
}

} // verus!
