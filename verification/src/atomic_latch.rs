//! A shared count-down owned by one thread, which is woken when the count
//! reaches zero.

use crate::count::{is_zero, took_last};
use crate::reading::{plain_read, plain_taken, read_plain, take_plain};
use std::sync::atomic::{AtomicUsize, Ordering};
use std::sync::Arc;
use vstd::prelude::*;

verus! {

/// A count-down shared between clones, with the handle of the thread that
/// waits for it to reach zero.
#[derive(Clone)]
pub struct AtomicLatch<W> {
    count: Arc<AtomicUsize>,
    owner_thread: W,
}

impl<W> AtomicLatch<W> {
    /// The handle of the thread to wake once the count reaches zero.
    pub closed spec fn owner(&self) -> W {
        self.owner_thread
    }

    /// A latch at `count`, waited on by the thread `owner_thread` names.
    pub fn new(count: usize, owner_thread: W) -> (l: AtomicLatch<W>)
        ensures
            l.owner() == owner_thread,
    {
        Self { count: Arc::new(AtomicUsize::new(count)), owner_thread }
    }

    /// Reading the count gave `v`.
    pub closed spec fn count_read(&self, v: usize) -> bool {
        plain_read(&*self.count, v)
    }

    /// Taking `n` off the count found `previous` there.
    pub closed spec fn count_taken(&self, n: usize, previous: usize) -> bool {
        plain_taken(&*self.count, n, previous)
    }

    /// The waiting thread's handle.
    pub fn owner_thread(&self) -> (w: &W)
        ensures
            *w == self.owner(),
    {
        &self.owner_thread
    }

    /// Takes `n` off the count. Returns `true` when this took it to zero; the
    /// caller then wakes the owner thread.
    pub fn decrement(&self, n: usize) -> (reached_zero: bool)
        ensures
            exists|previous: usize| #[trigger] self.count_taken(n, previous) && reached_zero == (previous == n),
    {
        let previous = take_plain(&self.count, n, Ordering::Release);
        assert(self.count_taken(n, previous));
        took_last(previous, n)
    }

    /// Whether the count, read once, is zero.
    pub fn is_complete(&self) -> (r: bool)
        ensures
            exists|v: usize| #[trigger] self.count_read(v) && r == (v == 0),
    {
        let v = read_plain(&self.count, Ordering::Acquire);
        assert(self.count_read(v));
        is_zero(v)
    }
}

} // verus!
