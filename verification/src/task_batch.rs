//! A batch of tasks that share one task function and a slice of parameter
//! structs; workers claim the parameters one at a time.

use crate::count::cursor_short_of;
use crate::future::WorkFuture;
use crate::outside::slice_address;
use crate::padded_type::PaddedAtomicUsize;
use crate::reading::{add_count, count_added, count_read, read_count};
use std::sync::atomic::Ordering;
use std::time::Duration;
use vstd::prelude::*;

verus! {

/// Where the parameters of a batch lie: `param_count` structs of
/// `param_stride` bytes each from `params_base`, all inside the address space.
pub open spec fn layout_fits(params_base: usize, param_stride: usize, param_count: usize) -> bool {
    params_base + param_count * param_stride <= usize::MAX
}

/// The address of parameter `index` of a batch laid out from `params_base`.
pub open spec fn param_address_at(params_base: usize, param_stride: usize, index: int) -> int {
    params_base + index * param_stride
}

/// Distinct tasks of a batch get distinct parameter structs, each lying whole
/// inside the batch's parameter bytes.
pub proof fn lemma_params_disjoint(params_base: usize, param_stride: usize, param_count: usize, i: int, j: int)
    requires
        layout_fits(params_base, param_stride, param_count),
        0 <= i < param_count,
        0 <= j < param_count,
        i != j,
    ensures
        params_base <= param_address_at(params_base, param_stride, i),
        param_address_at(params_base, param_stride, i) + param_stride <= params_base + param_count * param_stride,
        param_stride > 0 ==> (param_address_at(params_base, param_stride, i) + param_stride
            <= param_address_at(params_base, param_stride, j)
            || param_address_at(params_base, param_stride, j) + param_stride
            <= param_address_at(params_base, param_stride, i)),
{
    let s = param_stride as int;
    let c = param_count as int;
    assert(0 <= i * s) by (nonlinear_arith)
        requires
            0 <= i,
            0 <= s,
    ;
    assert(i * s + s <= c * s) by (nonlinear_arith)
        requires
            0 <= i < c,
            0 <= s,
    ;
    if s > 0 {
        if i < j {
            assert(i * s + s <= j * s) by (nonlinear_arith)
                requires
                    i < j,
                    0 < s,
            ;
        } else {
            assert(j * s + s <= i * s) by (nonlinear_arith)
                requires
                    j < i,
                    0 < s,
            ;
        }
    }
}

/// Task function, parameters and completion of one submitted batch.
pub struct TaskBatch<F> {
    next_index: PaddedAtomicUsize,
    params_base: usize,
    param_stride: usize,
    param_count: usize,
    fn_ptr: F,
    future: WorkFuture,
}

impl<F> TaskBatch<F> {
    #[verifier::type_invariant]
    spec fn well_formed(&self) -> bool {
        layout_fits(self.params_base, self.param_stride, self.param_count)
    }

    /// Address of the first parameter struct.
    pub closed spec fn base(&self) -> usize {
        self.params_base
    }

    /// Size in bytes of one parameter struct.
    pub closed spec fn stride(&self) -> usize {
        self.param_stride
    }

    /// Number of parameter structs, that is of tasks.
    pub closed spec fn count(&self) -> usize {
        self.param_count
    }

    /// The function that every task of the batch runs.
    pub closed spec fn task_fn(&self) -> F {
        self.fn_ptr
    }

    /// The future that reports the batch's completion.
    pub closed spec fn batch_future(&self) -> WorkFuture {
        self.future
    }

    /// A batch of one task per element of `params`, each running `fn_ptr` on
    /// the address of its element; `future` is to count `params.len()` tasks.
    pub fn new<T>(fn_ptr: F, params: &[T], future: WorkFuture) -> (b: TaskBatch<F>)
        ensures
            b.count() == params@.len(),
            b.stride() == vstd::layout::size_of::<T>(),
            b.task_fn() == fn_ptr,
            b.batch_future() == future,
            layout_fits(b.base(), b.stride(), b.count()),
    {
        let params_base = slice_address(params);
        let param_stride = core::mem::size_of::<T>();
        TaskBatch {
            next_index: PaddedAtomicUsize::new(0),
            params_base,
            param_stride,
            param_count: params.len(),
            fn_ptr,
            future,
        }
    }

    /// Reading the claim cursor gave `cursor`.
    pub closed spec fn cursor_read(&self, cursor: usize) -> bool {
        count_read(&self.next_index, cursor)
    }

    /// Advancing the claim cursor by one handed out `index`.
    pub closed spec fn index_claimed(&self, index: usize) -> bool {
        count_added(&self.next_index, 1, index)
    }

    /// The parameter address that claim index `index` stands for: that of
    /// parameter struct `index`, or `None` past the last one.
    pub open spec fn param_for_index(&self, index: usize) -> Option<usize> {
        if index < self.count() {
            Some(param_address_at(self.base(), self.stride(), index as int) as usize)
        } else {
            None
        }
    }

    /// The batch's future.
    pub fn future(&self) -> (f: &WorkFuture)
        ensures
            *f == self.batch_future(),
    {
        &self.future
    }

    /// The address of parameter `index`, or `None` past the last one.
    pub fn param_address(&self, index: usize) -> (r: Option<usize>)
        ensures
            r == self.param_for_index(index),
            r matches Some(a) ==> a == param_address_at(self.base(), self.stride(), index as int),
    {
        proof {
            use_type_invariant(self);
        }
        if index < self.param_count {
            proof {
                let s = self.param_stride as int;
                let c = self.param_count as int;
                let i = index as int;
                assert(i * s <= c * s) by (nonlinear_arith)
                    requires
                        0 <= i < c,
                        0 <= s,
                ;
            }
            Some(self.params_base + index * self.param_stride)
        } else {
            None
        }
    }

    /// Takes the next unclaimed task and returns the address of its
    /// parameters, or `None` once every task has been claimed. Whatever index
    /// the shared cursor hands out, what comes back is the address of one of
    /// the batch's parameter structs or nothing.
    pub fn claim_next_param(&self) -> (r: Option<usize>)
        ensures
            r matches Some(a) ==> exists|i: int|
                0 <= i < self.count() && a == #[trigger] param_address_at(self.base(), self.stride(), i),
            exists|index: usize| #[trigger] self.index_claimed(index) && r == self.param_for_index(index),
    {
        let index = add_count(&self.next_index, 1, Ordering::Relaxed);
        assert(self.index_claimed(index));
        self.param_address(index)
    }

    /// Whether the cursor, read once, is still short of the last task.
    pub fn has_unclaimed_tasks(&self) -> (r: bool)
        ensures
            self.count() == 0 ==> !r,
            exists|cursor: usize| #[trigger] self.cursor_read(cursor) && r == (cursor < self.count()),
    {
        let cursor = read_count(&self.next_index, Ordering::Relaxed);
        assert(self.cursor_read(cursor));
        cursor_short_of(cursor, self.param_count)
    }

    /// Whether every task of the batch has finished.
    pub fn is_complete(&self) -> (r: bool) {
        self.future.is_complete()
    }

    /// Records that `count` tasks of the batch have finished.
    pub fn complete_many(&self, count: usize) {
        self.future.complete_many(count)
    }

    /// Blocks until every task of the batch has finished.
    pub fn wait(&self) {
        self.future.clone().wait()
    }

    /// Blocks until every task has finished or about `timeout` has passed;
    /// returns whether every task has finished.
    pub fn wait_timeout(&self, timeout: Duration) -> (r: bool) {
        self.future.clone().wait_timeout(timeout)
    }
}

impl<F: Copy> TaskBatch<F> {
    /// The function that every task of the batch runs.
    pub fn fn_ptr(&self) -> (f: F)
        ensures
            f == self.task_fn(),
    {
        self.fn_ptr
    }
}

} // verus!
