//! Which sleeping workers to wake: the first ones in index order, up to the
//! number of tasks that wait.

use crate::epoch::NOT_IN_CRITICAL;
use vstd::prelude::*;

verus! {

/// The indices whose flag is set, in increasing order.
pub open spec fn marked_indices(flags: Seq<bool>) -> Seq<usize>
    decreases flags.len(),
{
    if flags.len() == 0 {
        Seq::empty()
    } else {
        let init = marked_indices(flags.drop_last());
        if flags.last() {
            init.push((flags.len() - 1) as usize)
        } else {
            init
        }
    }
}

/// The first `count` marked indices, or all of them when there are fewer.
pub open spec fn wake_selection(flags: Seq<bool>, count: nat) -> Seq<usize> {
    let m = marked_indices(flags);
    if count < m.len() {
        m.take(count as int)
    } else {
        m
    }
}

/// Which workers are outside any critical section, and so may be asleep.
pub open spec fn idle_flags(local_epochs: Seq<u64>) -> Seq<bool> {
    local_epochs.map_values(|e: u64| e == NOT_IN_CRITICAL)
}

/// Marked indices lie in range, point at set flags, come in increasing order,
/// and miss no set flag.
pub proof fn lemma_marked_indices(flags: Seq<bool>)
    requires
        flags.len() <= usize::MAX,
    ensures
        marked_indices(flags).len() <= flags.len(),
        forall|k: int| 0 <= k < marked_indices(flags).len() ==>
            (#[trigger] marked_indices(flags)[k]) < flags.len() && flags[marked_indices(flags)[k] as int],
        forall|k1: int, k2: int| 0 <= k1 < k2 < marked_indices(flags).len() ==>
            marked_indices(flags)[k1] < marked_indices(flags)[k2],
        forall|i: int| 0 <= i < flags.len() && #[trigger] flags[i] ==> marked_indices(flags).contains(i as usize),
    decreases flags.len(),
{
    if flags.len() > 0 {
        let init = flags.drop_last();
        lemma_marked_indices(init);
        let m0 = marked_indices(init);
        let m = marked_indices(flags);
        assert forall|i: int| 0 <= i < flags.len() && #[trigger] flags[i] implies m.contains(i as usize) by {
            if i < flags.len() - 1 {
                assert(init[i] == flags[i]);
                let k = choose|k: int| 0 <= k < m0.len() && m0[k] == i as usize;
                assert(m[k] == m0[k]);
            } else {
                assert(m[m.len() - 1] == i as usize);
            }
        }
        assert forall|k: int| 0 <= k < m.len() implies (#[trigger] m[k]) < flags.len() && flags[m[k] as int] by {
            if k < m0.len() {
                assert(m[k] == m0[k]);
                assert(m0[k] < init.len());
                assert(init[m0[k] as int] == flags[m0[k] as int]);
            } else {
                assert(flags.last());
                assert(m[k] == flags.len() - 1);
            }
        }
        assert forall|k1: int, k2: int| 0 <= k1 < k2 < m.len() implies m[k1] < m[k2] by {
            if k2 < m0.len() {
                assert(m[k1] == m0[k1]);
                assert(m[k2] == m0[k2]);
            } else {
                assert(m[k1] == m0[k1]);
                assert(m0[k1] < init.len());
            }
        }
    }
}

/// The marked indices of a prefix of the flags are a prefix of the marked
/// indices of a longer prefix.
proof fn lemma_marked_prefix(flags: Seq<bool>, i: int, j: int)
    requires
        0 <= i <= j <= flags.len(),
        flags.len() <= usize::MAX,
    ensures
        marked_indices(flags.take(i)).len() <= marked_indices(flags.take(j)).len(),
        marked_indices(flags.take(j)).take(marked_indices(flags.take(i)).len() as int)
            == marked_indices(flags.take(i)),
    decreases j - i,
{
    if i < j {
        lemma_marked_prefix(flags, i, j - 1);
        assert(flags.take(j).drop_last() == flags.take(j - 1));
        let a = marked_indices(flags.take(i));
        let b = marked_indices(flags.take(j - 1));
        let c = marked_indices(flags.take(j));
        assert(c.take(a.len() as int) == b.take(a.len() as int));
    } else {
        assert(marked_indices(flags.take(i)).take(marked_indices(flags.take(i)).len() as int)
            == marked_indices(flags.take(i)));
    }
}

/// The first `count` indices whose flag is set: scans the flags in order and
/// stops once `count` have been found.
pub fn parked_to_wake(parked: &[bool], count: usize) -> (r: Vec<usize>)
    ensures
        r@ == wake_selection(parked@, count as nat),
{
    let len = parked.len();
    let mut chosen: Vec<usize> = Vec::new();
    let mut i: usize = 0;
    while i < len
        invariant
            len == parked@.len(),
            i <= len,
            chosen@ == marked_indices(parked@.take(i as int)),
            chosen@.len() <= count,
        decreases len - i,
    {
        if chosen.len() == count {
            proof {
                lemma_marked_prefix(parked@, i as int, len as int);
                assert(parked@.take(len as int) == parked@);
            }
            return chosen;
        }
        assert(parked@.take(i + 1).drop_last() == parked@.take(i as int));
        if parked[i] {
            chosen.push(i);
        }
        i = i + 1;
    }
    assert(parked@.take(len as int) == parked@);
    chosen
}

/// The workers to wake for `count` new tasks: the first idle workers in index
/// order, at most one per task and at most one per worker.
pub fn workers_to_wake(local_epochs: &[u64], count: usize) -> (r: Vec<usize>)
    requires
        count > 0 || marked_indices(idle_flags(local_epochs@)).len() == 0,
    ensures
        r@ == wake_selection(idle_flags(local_epochs@), count as nat),
{
    let mut idle: Vec<bool> = Vec::new();
    let mut i: usize = 0;
    while i < local_epochs.len()
        invariant
            i <= local_epochs@.len(),
            idle@ == idle_flags(local_epochs@.take(i as int)),
        decreases local_epochs@.len() - i,
    {
        idle.push(local_epochs[i] == NOT_IN_CRITICAL);
        i = i + 1;
        assert(idle@ == idle_flags(local_epochs@.take(i as int)));
    }
    assert(local_epochs@.take(local_epochs@.len() as int) == local_epochs@);
    parked_to_wake(idle.as_slice(), count)
}

/// A wake selection names distinct idle workers in increasing order, as many
/// as asked for or all of the idle ones, and skips no idle worker before the
/// last one it names.
pub proof fn lemma_wake_selection(flags: Seq<bool>, count: nat)
    requires
        flags.len() <= usize::MAX,
    ensures
        wake_selection(flags, count).len()
            == (if count < marked_indices(flags).len() { count } else { marked_indices(flags).len() }),
        forall|k: int| 0 <= k < wake_selection(flags, count).len() ==>
            (#[trigger] wake_selection(flags, count)[k]) < flags.len()
            && flags[wake_selection(flags, count)[k] as int],
        forall|k1: int, k2: int| 0 <= k1 < k2 < wake_selection(flags, count).len() ==>
            wake_selection(flags, count)[k1] < wake_selection(flags, count)[k2],
        forall|i: int| 0 <= i < flags.len() && #[trigger] flags[i] && wake_selection(flags, count).len() > 0
            && i < wake_selection(flags, count).last() ==> wake_selection(flags, count).contains(i as usize),
{
    lemma_marked_indices(flags);
    let m = marked_indices(flags);
    let s = wake_selection(flags, count);
    assert forall|k: int| 0 <= k < s.len() implies (#[trigger] s[k]) < flags.len() && flags[s[k] as int] by {
        assert(s[k] == m[k]);
    }
    assert forall|i: int| 0 <= i < flags.len() && #[trigger] flags[i] && s.len() > 0 && i < s.last()
        implies s.contains(i as usize) by {
        let k = choose|k: int| 0 <= k < m.len() && m[k] == i as usize;
        let last = s.len() - 1;
        assert(s[last] == m[last]);
        if k > last {
            assert(m[last] < m[k]);
        }
        assert(s[k] == m[k]);
    }
}

} // verus!
