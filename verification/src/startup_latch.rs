//! A one-shot count-down that the pool's creator waits on until every worker
//! has started.

use crate::count::{is_zero, took_last};
use crate::reading::{plain_read, plain_taken, read_plain, take_plain};
use std::sync::atomic::{AtomicUsize, Ordering};
use vstd::prelude::*;

verus! {

/// Counts down the workers that have yet to start.
pub struct StartupLatch {
    count: AtomicUsize,
}

impl StartupLatch {
    /// Reading the count gave `v`.
    pub closed spec fn count_read(&self, v: usize) -> bool {
        plain_read(&self.count, v)
    }

    /// Taking one signal off the count found `previous` there.
    pub closed spec fn signal_taken(&self, previous: usize) -> bool {
        plain_taken(&self.count, 1, previous)
    }

    /// A latch that opens after `count` signals.
    pub fn new(count: usize) -> (l: StartupLatch) {
        Self { count: AtomicUsize::new(count) }
    }

    /// Takes one signal off the count. Returns `true` for the signal that
    /// opened the latch, after which the waiting thread is to be woken.
    pub fn count_down(&self) -> (opened: bool)
        ensures
            exists|previous: usize| #[trigger] self.signal_taken(previous) && opened == (previous == 1),
    {
        let previous = take_plain(&self.count, 1, Ordering::Release);
        assert(self.signal_taken(previous));
        took_last(previous, 1)
    }

    /// Whether every signal has arrived: the count, read once, is zero.
    pub fn is_released(&self) -> (r: bool)
        ensures
            exists|v: usize| #[trigger] self.count_read(v) && r == (v == 0),
    {
        let v = read_plain(&self.count, Ordering::Acquire);
        assert(self.count_read(v));
        is_zero(v)
    }
}

} // verus!
