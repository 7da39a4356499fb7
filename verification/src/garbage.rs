//! A worker's list of retired batches, freed once no worker can still be
//! reading them.

use crate::epoch::{can_reclaim, next_tick, oldest_fold, reclaimable, tick_step, EPOCH_MASK};
use crate::queue::Queue;
use std::collections::VecDeque;
use vstd::prelude::*;

verus! {

broadcast use vstd::std_specs::vecdeque::group_vec_dequeue_axioms;

/// A retired batch and the epoch at which it was unlinked from the queue.
pub struct GarbageNode<H> {
    pub task_batch: H,
    pub epoch: u64,
}

impl<H> GarbageNode<H> {
    /// A node for `task_batch`, unlinked at `epoch`.
    pub fn new(task_batch: H, epoch: u64) -> (r: GarbageNode<H>)
        ensures
            r.task_batch == task_batch,
            r.epoch == epoch,
    {
        GarbageNode { task_batch, epoch }
    }
}

/// The batches of a sequence of nodes, in order.
pub open spec fn batches<H>(nodes: Seq<GarbageNode<H>>) -> Seq<H> {
    nodes.map_values(|n: GarbageNode<H>| n.task_batch)
}

/// How many nodes at the front may be freed against `safe_epoch`: the length
/// of the longest prefix whose epochs all lie safely behind it.
pub open spec fn reclaimable_prefix<H>(nodes: Seq<GarbageNode<H>>, safe_epoch: u64) -> nat
    decreases nodes.len(),
{
    if nodes.len() > 0 && reclaimable(safe_epoch, nodes[0].epoch) {
        1 + reclaimable_prefix(nodes.drop_first(), safe_epoch)
    } else {
        0
    }
}

/// Retired batches in the order they were retired, oldest first.
pub struct GarbageList<H> {
    nodes: VecDeque<GarbageNode<H>>,
}

impl<H> View for GarbageList<H> {
    type V = Seq<GarbageNode<H>>;

    closed spec fn view(&self) -> Seq<GarbageNode<H>> {
        self.nodes@
    }
}

/// Freeing `nodes` against `safe_epoch` hands out `freed` and keeps `kept`:
/// the longest reclaimable prefix, and the rest in order.
pub open spec fn cleaned<H>(
    nodes: Seq<GarbageNode<H>>,
    safe_epoch: u64,
    freed: Seq<H>,
    kept: Seq<GarbageNode<H>>,
) -> bool {
    let k = reclaimable_prefix(nodes, safe_epoch) as int;
    &&& freed == batches(nodes.take(k))
    &&& kept == nodes.skip(k)
}

/// The longest reclaimable prefix holds only reclaimable nodes, and the node
/// after it, if any, is not reclaimable.
pub proof fn lemma_reclaimable_prefix<H>(nodes: Seq<GarbageNode<H>>, safe_epoch: u64)
    ensures
        reclaimable_prefix(nodes, safe_epoch) <= nodes.len(),
        forall|i: int| 0 <= i < reclaimable_prefix(nodes, safe_epoch) ==>
            reclaimable(safe_epoch, #[trigger] nodes[i].epoch),
        reclaimable_prefix(nodes, safe_epoch) < nodes.len() ==>
            !reclaimable(safe_epoch, nodes[reclaimable_prefix(nodes, safe_epoch) as int].epoch),
    decreases nodes.len(),
{
    if nodes.len() > 0 && reclaimable(safe_epoch, nodes[0].epoch) {
        let rest = nodes.drop_first();
        lemma_reclaimable_prefix(rest, safe_epoch);
        assert forall|i: int| 0 <= i < reclaimable_prefix(nodes, safe_epoch) implies
            reclaimable(safe_epoch, #[trigger] nodes[i].epoch) by {
            if i > 0 {
                assert(nodes[i] == rest[i - 1]);
            }
        }
        let k = reclaimable_prefix(nodes, safe_epoch) as int;
        if k < nodes.len() {
            assert(nodes[k] == rest[k - 1]);
        }
    }
}

/// Past a prefix of reclaimable nodes, the reclaimable prefix continues with
/// that of the rest.
proof fn lemma_reclaimable_prefix_split<H>(nodes: Seq<GarbageNode<H>>, safe_epoch: u64, i: int)
    requires
        0 <= i <= nodes.len(),
        forall|j: int| 0 <= j < i ==> reclaimable(safe_epoch, #[trigger] nodes[j].epoch),
    ensures
        reclaimable_prefix(nodes, safe_epoch) == i + reclaimable_prefix(nodes.skip(i), safe_epoch),
    decreases i,
{
    if i > 0 {
        let rest = nodes.drop_first();
        assert forall|j: int| 0 <= j < i - 1 implies reclaimable(safe_epoch, #[trigger] rest[j].epoch) by {
            assert(rest[j] == nodes[j + 1]);
        }
        lemma_reclaimable_prefix_split(rest, safe_epoch, i - 1);
        assert(rest.skip(i - 1) == nodes.skip(i));
        assert(reclaimable(safe_epoch, nodes[0].epoch));
    } else {
        assert(nodes.skip(0) == nodes);
    }
}

/// Freeing keeps every retired batch exactly once: what is freed, followed by
/// what is kept, is what was retired, in the same order.
pub proof fn lemma_clean_loses_nothing<H>(
    nodes: Seq<GarbageNode<H>>,
    safe_epoch: u64,
    freed: Seq<H>,
    kept: Seq<GarbageNode<H>>,
)
    requires
        cleaned(nodes, safe_epoch, freed, kept),
    ensures
        freed + batches(kept) == batches(nodes),
{
    lemma_reclaimable_prefix(nodes, safe_epoch);
    let k = reclaimable_prefix(nodes, safe_epoch) as int;
    assert(nodes.take(k) + nodes.skip(k) == nodes);
    assert(batches(nodes.take(k)) + batches(nodes.skip(k)) == batches(nodes));
}

impl<H> GarbageList<H> {
    /// An empty list.
    pub fn new() -> (g: GarbageList<H>)
        ensures
            g@ == Seq::<GarbageNode<H>>::empty(),
    {
        GarbageList { nodes: VecDeque::new() }
    }

    /// The number of retired batches not yet freed.
    pub fn len(&self) -> (n: usize)
        ensures
            n == self@.len(),
    {
        self.nodes.len()
    }

    /// Whether every retired batch has been handed back.
    pub fn is_empty(&self) -> (b: bool)
        ensures
            b == (self@.len() == 0),
    {
        self.nodes.len() == 0
    }

    /// Adds a batch unlinked from the queue at `epoch` to the end of the list.
    pub fn retire(&mut self, task_batch: H, epoch: u64)
        ensures
            final(self)@ == old(self)@.push(GarbageNode { task_batch, epoch }),
    {
        self.nodes.push_back(GarbageNode::new(task_batch, epoch));
    }

    /// Takes off the front of the list, and returns, every batch that may be
    /// freed against `safe_epoch`, stopping at the first that may not.
    pub fn clean(&mut self, safe_epoch: u64) -> (freed: Vec<H>)
        ensures
            cleaned(old(self)@, safe_epoch, freed@, final(self)@),
    {
        let ghost start = self@;
        let mut freed: Vec<H> = Vec::new();
        let ghost mut i: int = 0;
        while self.nodes.len() > 0 && can_reclaim(safe_epoch, self.nodes[0].epoch)
            invariant
                0 <= i <= start.len(),
                self@ == start.skip(i),
                freed@ == batches(start.take(i)),
                forall|j: int| 0 <= j < i ==> reclaimable(safe_epoch, #[trigger] start[j].epoch),
            decreases self@.len(),
        {
            let ghost before = self@;
            let node = self.nodes.pop_front().unwrap();
            proof {
                assert(start[i] == before[0]);
                assert(start.take(i + 1) == start.take(i).push(start[i]));
                assert(start.skip(i + 1) == before.subrange(1, before.len() as int));
                i = i + 1;
            }
            freed.push(node.task_batch);
        }
        proof {
            lemma_reclaimable_prefix_split(start, safe_epoch, i);
            if i < start.len() {
                assert(start.skip(i)[0] == start[i]);
            }
            assert(reclaimable_prefix(start.skip(i), safe_epoch) == 0);
        }
        freed
    }

    /// Counts one more finished batch on the worker's tick; every 256th time
    /// the list is cleaned against the oldest epoch in use.
    pub fn maybe_clean(&mut self, queue: &Queue, local_tick: &mut u8) -> (freed: Vec<H>)
        ensures
            *final(local_tick) == tick_step(*old(local_tick)).0,
            !tick_step(*old(local_tick)).1 ==> freed@.len() == 0 && final(self)@ == old(self)@,
            tick_step(*old(local_tick)).1 ==> exists|global: u64, locals: Seq<u64>|
                global <= EPOCH_MASK && locals.len() == queue.workers()
                && cleaned(old(self)@, #[trigger] oldest_fold(global, locals), freed@, final(self)@),
    {
        let (next, wrapped) = next_tick(*local_tick);
        *local_tick = next;
        if !wrapped {
            return Vec::new();
        }
        let safe_epoch = queue.min_active_epoch();
        let freed = self.clean(safe_epoch);
        proof {
            let (global, locals) = choose|global: u64, locals: Seq<u64>|
                global <= EPOCH_MASK && locals.len() == queue.workers()
                && safe_epoch == #[trigger] oldest_fold(global, locals);
            assert(cleaned(old(self)@, oldest_fold(global, locals), freed@, self@));
        }
        freed
    }

    /// Empties the list and returns every batch in it, oldest first.
    pub fn drain(&mut self) -> (freed: Vec<H>)
        ensures
            freed@ == batches(old(self)@),
            final(self)@ == Seq::<GarbageNode<H>>::empty(),
    {
        let ghost start = self@;
        let mut freed: Vec<H> = Vec::new();
        while self.nodes.len() > 0
            invariant
                freed@.len() <= start.len(),
                self@ == start.skip(freed@.len() as int),
                freed@ == batches(start.take(freed@.len() as int)),
            decreases self@.len(),
        {
            let ghost before = self@;
            let ghost n = freed@.len() as int;
            let node = self.nodes.pop_front().unwrap();
            proof {
                assert(start[n] == before[0]);
                assert(start.take(n + 1) == start.take(n).push(start[n]));
                assert(start.skip(n + 1) == before.subrange(1, before.len() as int));
            }
            freed.push(node.task_batch);
        }
        assert(start.take(start.len() as int) == start);
        freed
    }
}

} // verus!
