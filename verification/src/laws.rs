//! Laws of the shared-state operations, over every result they may give.
//! Each operation reads atomics that other threads change; the laws say how
//! its result relates to the values it read.

use crate::epoch::{age, within_window, EPOCH_MASK, NOT_IN_CRITICAL};
use crate::future::WorkFuture;
use crate::queue::Queue;
use crate::task_batch::TaskBatch;
use vstd::prelude::*;

verus! {

/// The oldest epoch in use is taken over every worker: it is no newer than
/// the epoch read from any worker inside a critical section, as long as those
/// epochs lie within half the epoch space of the global epoch read.
pub proof fn law_min_active_epoch_covers_every_worker(q: &Queue, r: u64)
    requires
        call_ensures(Queue::min_active_epoch, (q,), r),
    ensures
        exists|global: u64, locals: Seq<u64>|
            #[trigger] q.epochs_read(global, locals) && global <= EPOCH_MASK
            && (within_window(global, locals) ==> forall|i: int|
                0 <= i < locals.len() && locals[i] != NOT_IN_CRITICAL
                    ==> age(global, #[trigger] locals[i]) <= age(global, r)),
{
}

/// Only idle workers are woken: every index that `notify` returns names a
/// worker whose epoch was read as outside any critical section, and no more
/// workers are woken than tasks were submitted.
pub proof fn law_notify_wakes_only_idle_workers(q: &Queue, count: usize, r: Vec<usize>)
    requires
        call_ensures(Queue::notify, (q, count), r),
    ensures
        r@.len() <= count,
        exists|locals: Seq<u64>|
            locals.len() == q.workers()
            && (forall|i: int| 0 <= i < locals.len() ==> q.local_read(i, #[trigger] locals[i]))
            && forall|k: int| 0 <= k < r@.len() ==>
                (#[trigger] r@[k]) < locals.len() && locals[r@[k] as int] == NOT_IN_CRITICAL,
{
}

/// A batch reports unclaimed tasks exactly when the claim cursor it read is
/// short of its number of tasks.
pub proof fn law_unclaimed_tasks_follow_the_cursor<F>(b: &TaskBatch<F>, r: bool)
    requires
        call_ensures(TaskBatch::<F>::has_unclaimed_tasks, (b,), r),
    ensures
        exists|cursor: usize| #[trigger] b.cursor_read(cursor) && r == (cursor < b.count()),
{
}

/// Waiting ends only after every task has finished: when `wait` returns, the
/// count of unfinished tasks has been read as zero.
pub proof fn law_wait_returns_after_completion(f: WorkFuture)
    requires
        call_ensures(WorkFuture::wait, (f,), ()),
    ensures
        f.remaining_read(0),
{
}

} // verus!
