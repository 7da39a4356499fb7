//! The shared state of the pool that is not the list of batches itself: the
//! epochs that guard the reclamation of retired batches, the count of
//! finished batches that drives them, and the shutdown flag.

use crate::epoch::{
    active_candidate, age, lemma_oldest_is_in_use, lemma_oldest_is_oldest, next_tick,
    oldest_active_epoch, oldest_fold, within_window, EPOCH_MASK, NOT_IN_CRITICAL,
};
use crate::padded_type::PaddedType;
use crate::reading::{epoch_read, flag_read, read_epoch, read_flag};
use crate::wake::{idle_flags, lemma_wake_selection, wake_selection, workers_to_wake};
use std::sync::atomic::{AtomicBool, AtomicU64, AtomicU8, Ordering};
use vstd::prelude::*;

verus! {

/// What a worker that looks for work is to do next.
pub enum WorkWait {
    /// There are unclaimed tasks.
    Work,
    /// The pool shuts down.
    Shutdown,
    /// Nothing to do: sleep until woken, then look again.
    Park,
}

/// What a worker entering a critical section writes to its shared epoch
/// slot, given its cached epoch and the global epoch it read: the global
/// epoch when the cache is out of date, nothing when it is current.
pub fn epoch_to_publish(cached_local_epoch: u64, global_epoch: u64) -> (r: Option<u64>)
    ensures
        r == (if cached_local_epoch != global_epoch { Some(global_epoch) } else { None }),
{
    if cached_local_epoch != global_epoch {
        Some(global_epoch)
    } else {
        None
    }
}

/// The decision of a worker's first look for work, given whether the newest
/// batch had unclaimed tasks and whether shutdown was read as requested:
/// tasks come first, then shutdown; with neither the worker looks on.
pub fn first_look(has_tasks: bool, shutdown: bool) -> (r: Option<WorkWait>)
    ensures
        r == (if has_tasks {
            Some(WorkWait::Work)
        } else if shutdown {
            Some(WorkWait::Shutdown)
        } else {
            None
        }),
{
    if has_tasks {
        Some(WorkWait::Work)
    } else if shutdown {
        Some(WorkWait::Shutdown)
    } else {
        None
    }
}

/// Epoch and shutdown state shared by the workers of one pool.
pub struct Queue {
    epoch_ticker: PaddedType<AtomicU8, 63>,
    global_epoch: PaddedType<AtomicU64, 56>,
    local_epochs: Vec<PaddedType<AtomicU64, 56>>,
    shutdown: AtomicBool,
}

impl Queue {
    /// The number of workers that the queue serves.
    pub closed spec fn workers(&self) -> nat {
        self.local_epochs@.len()
    }

    /// Reading the global epoch gave `raw`.
    pub closed spec fn global_read(&self, raw: u64) -> bool {
        epoch_read(&self.global_epoch, raw)
    }

    /// Reading worker `i`'s local epoch gave `e`.
    pub closed spec fn local_read(&self, i: int, e: u64) -> bool {
        epoch_read(&self.local_epochs@[i], e)
    }

    /// Reading the shutdown flag gave `v`.
    pub closed spec fn shutdown_read(&self, v: bool) -> bool {
        flag_read(&self.shutdown, v)
    }

    /// `global` is a reading of the global epoch, cut to the epoch bits, and
    /// `locals` holds one reading of each worker's local epoch, in order.
    pub open spec fn epochs_read(&self, global: u64, locals: Seq<u64>) -> bool {
        &&& exists|raw: u64| self.global_read(raw) && global == #[trigger] (raw & EPOCH_MASK)
        &&& locals.len() == self.workers()
        &&& forall|i: int| 0 <= i < locals.len() ==> self.local_read(i, #[trigger] locals[i])
    }

    /// State for `worker_count` workers, none of them in a critical section,
    /// at epoch zero and not shut down.
    pub fn new(worker_count: usize) -> (q: Queue)
        ensures
            q.workers() == worker_count,
    {
        let mut local_epochs: Vec<PaddedType<AtomicU64, 56>> = Vec::new();
        let mut i: usize = 0;
        while i < worker_count
            invariant
                i <= worker_count,
                local_epochs@.len() == i,
            decreases worker_count - i,
        {
            local_epochs.push(PaddedType::new_padded(AtomicU64::new(NOT_IN_CRITICAL)));
            i = i + 1;
        }
        Queue {
            epoch_ticker: PaddedType::new_padded(AtomicU8::new(0)),
            global_epoch: PaddedType::new_padded(AtomicU64::new(0)),
            local_epochs,
            shutdown: AtomicBool::new(false),
        }
    }

    /// The number of workers that the queue serves.
    pub fn worker_count(&self) -> (n: usize)
        ensures
            n == self.workers(),
    {
        self.local_epochs.len()
    }

    /// The global epoch, read once and cut to the epoch bits.
    pub fn current_epoch(&self) -> (e: u64)
        ensures
            e <= EPOCH_MASK,
            exists|raw: u64| self.global_read(raw) && e == #[trigger] (raw & EPOCH_MASK),
    {
        let raw = read_epoch(&self.global_epoch, Ordering::Relaxed);
        let e = raw & EPOCH_MASK;
        assert(raw & 0x7fff_ffff_ffff_ffffu64 <= 0x7fff_ffff_ffff_ffffu64) by (bit_vector);
        assert(EPOCH_MASK == 0x7fff_ffff_ffff_ffffu64) by (bit_vector);
        e
    }

    /// Enters a critical section before the worker touches the list of
    /// batches: the worker's epoch becomes the current global epoch. The
    /// shared slot is written only when the cached copy is out of date.
    pub fn pin_epoch(&self, worker_id: usize, cached_local_epoch: &mut u64)
        requires
            worker_id < self.workers(),
        ensures
            *final(cached_local_epoch) <= EPOCH_MASK,
            exists|raw: u64|
                self.global_read(raw) && *final(cached_local_epoch) == #[trigger] (raw & EPOCH_MASK),
    {
        let global_epoch = self.current_epoch();
        if let Some(epoch) = epoch_to_publish(*cached_local_epoch, global_epoch) {
            *cached_local_epoch = epoch;
            self.local_epochs[worker_id].store(epoch, Ordering::SeqCst);
        }
    }

    /// One reading of every worker's local epoch, in index order.
    fn local_epoch_snapshot(&self) -> (s: Vec<u64>)
        ensures
            s@.len() == self.workers(),
            forall|i: int| 0 <= i < s@.len() ==> self.local_read(i, #[trigger] s@[i]),
    {
        let mut s: Vec<u64> = Vec::new();
        let mut i: usize = 0;
        while i < self.local_epochs.len()
            invariant
                i <= self.local_epochs@.len(),
                s@.len() == i,
                forall|j: int| 0 <= j < s@.len() ==> self.local_read(j, #[trigger] s@[j]),
            decreases self.local_epochs@.len() - i,
        {
            s.push(read_epoch(&self.local_epochs[i], Ordering::SeqCst));
            i = i + 1;
        }
        s
    }

    /// The oldest epoch still in use: the global epoch, replaced in turn by
    /// each worker's epoch that is not newer than the answer so far. Nodes
    /// retired before it may be freed (see `can_reclaim`).
    pub fn min_active_epoch(&self) -> (r: u64)
        ensures
            exists|global: u64, locals: Seq<u64>|
                #[trigger] self.epochs_read(global, locals) && global <= EPOCH_MASK
                && r == oldest_fold(global, locals)
                && active_candidate(global, locals, r)
                && (within_window(global, locals) ==> forall|i: int|
                    0 <= i < locals.len() && locals[i] != NOT_IN_CRITICAL
                        ==> age(global, #[trigger] locals[i]) <= age(global, r)),
    {
        let global = self.current_epoch();
        let locals = self.local_epoch_snapshot();
        let r = oldest_active_epoch(global, locals.as_slice());
        proof {
            lemma_oldest_is_in_use(global, locals@);
            if within_window(global, locals@) {
                lemma_oldest_is_oldest(global, locals@);
            }
            assert(self.epochs_read(global, locals@));
        }
        r
    }

    /// Counts a finished batch; every 256th one advances the global epoch.
    pub fn batch_completed(&self) {
        let previous = self.epoch_ticker.fetch_add(1, Ordering::Relaxed);
        let (_, wrapped) = next_tick(previous);
        if wrapped {
            self.global_epoch.fetch_add(1, Ordering::Relaxed);
        }
    }

    /// Whether shutdown has been requested.
    pub fn is_shutdown(&self) -> (r: bool)
        ensures
            self.shutdown_read(r),
    {
        read_flag(&self.shutdown, Ordering::Acquire)
    }

    /// Requests shutdown. The caller then wakes every worker.
    pub fn shutdown(&self) {
        self.shutdown.store(true, Ordering::Release);
    }

    /// The workers to wake for `count` new tasks: reads every worker's epoch
    /// once and picks the first idle workers in index order, one per task.
    pub fn notify(&self, count: usize) -> (r: Vec<usize>)
        requires
            count > 0,
        ensures
            r@.len() <= count,
            exists|locals: Seq<u64>|
                locals.len() == self.workers()
                && (forall|i: int| 0 <= i < locals.len() ==> self.local_read(i, #[trigger] locals[i]))
                && r@ == #[trigger] wake_selection(idle_flags(locals), count as nat)
                && forall|k: int| 0 <= k < r@.len() ==>
                    (#[trigger] r@[k]) < locals.len() && locals[r@[k] as int] == NOT_IN_CRITICAL,
    {
        let locals = self.local_epoch_snapshot();
        let r = workers_to_wake(locals.as_slice(), count);
        proof {
            lemma_wake_selection(idle_flags(locals@), count as nat);
            assert forall|k: int| 0 <= k < r@.len() implies
                (#[trigger] r@[k]) < locals@.len() && locals@[r@[k] as int] == NOT_IN_CRITICAL by {
                assert(idle_flags(locals@)[r@[k] as int]);
            }
        }
        r
    }

    /// One round of a worker's search for work. `has_tasks` tells whether the
    /// newest batch still has unclaimed tasks. With none and no shutdown, the
    /// worker leaves its critical section (so that `notify` may pick it) and
    /// looks once more before it is told to park.
    pub fn poll_for_work<H: Fn() -> bool>(
        &self,
        worker_id: usize,
        cached_local_epoch: &mut u64,
        has_tasks: H,
    ) -> (r: WorkWait)
        requires
            worker_id < self.workers(),
            has_tasks.requires(()),
        ensures
            *final(cached_local_epoch) == *old(cached_local_epoch)
                || *final(cached_local_epoch) == NOT_IN_CRITICAL,
            r is Park ==> *final(cached_local_epoch) == NOT_IN_CRITICAL,
            r is Park ==> has_tasks.ensures((), false),
            r is Shutdown ==> has_tasks.ensures((), false),
            r is Shutdown ==> *final(cached_local_epoch) == *old(cached_local_epoch),
            r is Shutdown ==> self.shutdown_read(true),
            r is Park ==> self.shutdown_read(false),
            r is Work ==> has_tasks.ensures((), true),
    {
        let tasks = has_tasks();
        let shutdown = self.is_shutdown();
        if let Some(r) = first_look(tasks, shutdown) {
            return r;
        }
        if *cached_local_epoch != NOT_IN_CRITICAL {
            *cached_local_epoch = NOT_IN_CRITICAL;
            self.local_epochs[worker_id].store(NOT_IN_CRITICAL, Ordering::SeqCst);
            if has_tasks() {
                return WorkWait::Work;
            }
        }
        WorkWait::Park
    }
}

} // verus!
