//! One unit of work: a task function and the address of its parameters.

use vstd::prelude::*;

verus! {

/// A task function paired with the address of the parameter struct that it
/// is to be called with.
#[derive(Copy, Clone)]
pub struct WorkItem<F> {
    pub params: usize,
    pub task_fn: F,
}

impl<F> WorkItem<F> {
    /// An item that runs `task_fn` on the parameters at address `params`.
    pub fn new(params: usize, task_fn: F) -> (r: WorkItem<F>)
        ensures
            r.params == params,
            r.task_fn == task_fn,
    {
        WorkItem { params, task_fn }
    }
}

} // verus!
