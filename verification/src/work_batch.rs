//! A batch of work items that workers claim one by one.

use crate::count::cursor_short_of;
use crate::future::WorkFuture;
use crate::padded_type::PaddedAtomicUsize;
use crate::reading::{add_count, count_added, count_read, read_count};
use crate::work_item::WorkItem;
use std::sync::atomic::Ordering;
use vstd::prelude::*;

verus! {

/// Work items shared by the workers, with a cursor that hands out each index
/// once, and the future that reports their completion.
pub struct WorkBatch<F> {
    next_item: PaddedAtomicUsize,
    pub items: Vec<WorkItem<F>>,
    pub future: WorkFuture,
}

impl<F> WorkBatch<F> {
    /// The items of the batch, in order.
    pub closed spec fn item_seq(&self) -> Seq<WorkItem<F>> {
        self.items@
    }

    /// Reading the claim cursor gave `cursor`.
    pub closed spec fn cursor_read(&self, cursor: usize) -> bool {
        count_read(&self.next_item, cursor)
    }

    /// Advancing the claim cursor by one handed out `index`.
    pub closed spec fn index_claimed(&self, index: usize) -> bool {
        count_added(&self.next_item, 1, index)
    }

    /// The item that claim index `index` stands for, or `None` past the end.
    pub open spec fn item_for_index(&self, index: usize) -> Option<WorkItem<F>> {
        if index < self.item_seq().len() {
            Some(self.item_seq()[index as int])
        } else {
            None
        }
    }

    /// The future that reports the batch's completion.
    pub closed spec fn batch_future(&self) -> WorkFuture {
        self.future
    }
}

impl<F: Copy> WorkBatch<F> {
    /// A batch of `items`, none claimed yet, reporting to `future`.
    pub fn new(items: Vec<WorkItem<F>>, future: WorkFuture) -> (r: WorkBatch<F>)
        ensures
            r.item_seq() == items@,
            r.batch_future() == future,
    {
        WorkBatch { next_item: PaddedAtomicUsize::new(0), items, future }
    }

    /// The item at `index`, or `None` past the end of the batch.
    pub fn item_at(&self, index: usize) -> (r: Option<WorkItem<F>>)
        ensures
            r == (if index < self.item_seq().len() {
                Some(self.item_seq()[index as int])
            } else {
                None
            }),
            r matches Some(item) ==> self.item_seq().contains(item),
    {
        if index < self.items.len() {
            assert(self.items@.contains(self.items@[index as int]));
            Some(self.items[index])
        } else {
            None
        }
    }

    /// Takes the next unclaimed index and returns its item, or `None` once
    /// every item has been claimed. Whatever index the shared cursor hands
    /// out, what comes back is an item of this batch or nothing.
    pub fn claim_next_item(&self) -> (r: Option<WorkItem<F>>)
        ensures
            r matches Some(item) ==> self.item_seq().contains(item),
            exists|index: usize| #[trigger] self.index_claimed(index) && r == self.item_for_index(index),
    {
        let item_index = add_count(&self.next_item, 1, Ordering::Relaxed);
        assert(self.index_claimed(item_index));
        self.item_at(item_index)
    }

    /// Whether the cursor, read once, is still short of the end of the batch.
    pub fn has_work(&self) -> (r: bool)
        ensures
            self.item_seq().len() == 0 ==> !r,
            exists|cursor: usize| #[trigger] self.cursor_read(cursor) && r == (cursor < self.item_seq().len()),
    {
        let cursor = read_count(&self.next_item, Ordering::Relaxed);
        assert(self.cursor_read(cursor));
        cursor_short_of(cursor, self.items.len())
    }
}

} // verus!
