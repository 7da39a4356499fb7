//! A thread pool's verified core: the claiming of tasks from shared batches,
//! the epoch-based reclamation of retired batches, the choice of workers to
//! wake, and the completion futures that submitters wait on.

use vstd::prelude::*;

pub mod count;
pub mod reading;
pub mod laws;
pub mod epoch;
pub mod wake;
pub mod queue;
pub mod garbage;
pub mod task_batch;
mod outside;
pub mod padded_type;
pub mod padded_atomic;
pub mod future;
pub mod work_item;
pub mod work_batch;
pub mod startup_latch;
pub mod atomic_latch;
pub mod wait;
pub mod wait_gate;

use crate::outside::slice_address;
use crate::task_batch::{layout_fits, param_address_at};

verus! {

/// The future returned for a submitted batch.
pub type TaskFuture = crate::future::WorkFuture;

/// A work item: a task function and the address of its parameter struct.
pub type TaskItem<F> = (F, usize);

/// Work items for `count` parameter structs of `stride` bytes each from
/// `params_base`, all run by `task_fn`.
pub fn tasks_at_layout<F: Copy>(task_fn: F, params_base: usize, stride: usize, count: usize) -> (r: Vec<TaskItem<F>>)
    requires
        layout_fits(params_base, stride, count),
    ensures
        r@.len() == count,
        forall|i: int| 0 <= i < count ==> (#[trigger] r@[i]).0 == task_fn
            && r@[i].1 == param_address_at(params_base, stride, i),
{
    let mut r: Vec<TaskItem<F>> = Vec::new();
    let mut i: usize = 0;
    while i < count
        invariant
            layout_fits(params_base, stride, count),
            i <= count,
            r@.len() == i,
            forall|j: int| 0 <= j < i ==> (#[trigger] r@[j]).0 == task_fn
                && r@[j].1 == param_address_at(params_base, stride, j),
        decreases count - i,
    {
        proof {
            let s = stride as int;
            let c = count as int;
            let k = i as int;
            assert(k * s <= c * s) by (nonlinear_arith)
                requires
                    0 <= k < c,
                    0 <= s,
            ;
        }
        r.push((task_fn, params_base + i * stride));
        i = i + 1;
    }
    r
}

/// Converts a slice of parameter structs into work items that run `task_fn`,
/// one per element, carrying the element's address. Converting once lets the
/// same batch be submitted many times.
pub fn uniform_tasks_to_pointers<F: Copy, T>(task_fn: F, params_vec: &[T]) -> (r: Vec<TaskItem<F>>)
    ensures
        r@.len() == params_vec@.len(),
        forall|i: int| 0 <= i < r@.len() ==> (#[trigger] r@[i]).0 == task_fn,
        forall|i: int| 0 <= i < r@.len() ==> (#[trigger] r@[i]).1 == r@[0].1 + i * vstd::layout::size_of::<T>(),
{
    let base = slice_address(params_vec);
    let stride = core::mem::size_of::<T>();
    let r = tasks_at_layout(task_fn, base, stride, params_vec.len());
    assert forall|i: int| 0 <= i < r@.len() implies (#[trigger] r@[i]).1 == r@[0].1 + i * vstd::layout::size_of::<T>() by {
        assert(r@[0].1 == param_address_at(base, stride, 0));
    }
    r
}

} // verus!
