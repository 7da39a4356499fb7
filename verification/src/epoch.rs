//! Epoch arithmetic for the reclamation of retired batches.
//!
//! Epochs live in the low 63 bits of a word and wrap around; two epochs are
//! compared by how far one lies ahead of the other modulo 2^63, and a distance
//! of half that space or more is read as wrap-around.

use vstd::prelude::*;

verus! {

/// Marks a worker that is outside any critical section.
pub const NOT_IN_CRITICAL: u64 = u64::MAX;

/// Epochs use only the low 63 bits of a word.
pub const EPOCH_MASK: u64 = u64::MAX >> 1;

/// Two epochs further apart than this are read as wrapped around.
pub const EPOCH_MASK_HALF: u64 = EPOCH_MASK / 2;

/// The size of the epoch space: epochs are taken modulo this number.
pub open spec fn epoch_modulus() -> int {
    EPOCH_MASK as int + 1
}

/// How far `newer` lies ahead of `older`, counted modulo the epoch space.
pub open spec fn epoch_distance(newer: int, older: int) -> int {
    (newer - older) % epoch_modulus()
}

/// A node stamped with `node_epoch` lies strictly behind `safe_epoch`, by less
/// than half the epoch space.
pub open spec fn reclaimable(safe_epoch: u64, node_epoch: u64) -> bool {
    0 < epoch_distance(safe_epoch as int, node_epoch as int) < EPOCH_MASK_HALF
}

/// `epoch` is `than` or lies behind it, by less than half the epoch space.
pub open spec fn not_newer(epoch: u64, than: u64) -> bool {
    epoch_distance(than as int, epoch as int) < EPOCH_MASK_HALF
}

/// Folds the local epochs into the oldest one, from left to right, starting
/// from `start`; workers outside a critical section are skipped.
pub open spec fn oldest_fold(start: u64, locals: Seq<u64>) -> u64
    decreases locals.len(),
{
    if locals.len() == 0 {
        start
    } else {
        let m = oldest_fold(start, locals.drop_last());
        let e = locals.last();
        if e != NOT_IN_CRITICAL && not_newer(e, m) {
            e
        } else {
            m
        }
    }
}

/// An epoch in use: the global epoch or that of a worker in a critical section.
pub open spec fn active_candidate(global: u64, locals: Seq<u64>, e: u64) -> bool {
    e == global || exists|i: int| 0 <= i < locals.len() && locals[i] != NOT_IN_CRITICAL && locals[i] == e
}

/// How old an epoch is, seen from the global epoch.
pub open spec fn age(global: u64, e: u64) -> int {
    epoch_distance(global as int, e as int)
}

/// Every worker in a critical section holds an epoch that is less than half
/// the epoch space behind the global epoch: the state that the pool keeps.
pub open spec fn within_window(global: u64, locals: Seq<u64>) -> bool {
    forall|i: int| 0 <= i < locals.len() && locals[i] != NOT_IN_CRITICAL ==> age(global, #[trigger] locals[i]) < EPOCH_MASK_HALF
}

/// The values of the epoch constants.
proof fn lemma_epoch_constants()
    ensures
        EPOCH_MASK == 0x7fff_ffff_ffff_ffff,
        EPOCH_MASK_HALF == 0x3fff_ffff_ffff_ffff,
{
    assert(EPOCH_MASK == 0x7fff_ffff_ffff_ffff) by (bit_vector);
    assert(EPOCH_MASK_HALF == 0x3fff_ffff_ffff_ffff) by (bit_vector);
}

/// The distance from `older` to `newer` is the difference of their ages, seen
/// from any third epoch, taken modulo the epoch space.
proof fn lemma_distance_by_ages(global: int, newer: int, older: int)
    ensures
        epoch_distance(newer, older)
            == (epoch_distance(global, older) - epoch_distance(global, newer)) % epoch_modulus(),
{
    let m = epoch_modulus();
    lemma_epoch_constants();
    let x = global - older;
    let y = global - newer;
    vstd::arithmetic::div_mod::lemma_fundamental_div_mod(x, m);
    vstd::arithmetic::div_mod::lemma_fundamental_div_mod(y, m);
    let q1 = x / m;
    let q2 = y / m;
    assert(m * q2 - m * q1 == m * (q2 - q1)) by (nonlinear_arith);
    assert(x % m - y % m == m * (q2 - q1) + (newer - older));
    vstd::arithmetic::div_mod::lemma_mod_multiples_vanish(q2 - q1, newer - older, m);
}

/// Whether a node stamped with `node_epoch` may be freed once every worker is at
/// `safe_epoch` or later.
pub fn can_reclaim(safe_epoch: u64, node_epoch: u64) -> (r: bool)
    ensures
        r == reclaimable(safe_epoch, node_epoch),
{
    let d = safe_epoch.wrapping_sub(node_epoch).wrapping_sub(1) & EPOCH_MASK;
    proof {
        lemma_epoch_constants();
    }
    let ghost a = safe_epoch.wrapping_sub(node_epoch);
    let ghost b = a.wrapping_sub(1);
    assert(d == (safe_epoch - node_epoch - 1) % 0x8000_0000_0000_0000) by (bit_vector)
        requires
            a == (if safe_epoch - node_epoch < 0 {
                (safe_epoch - node_epoch + 0x1_0000_0000_0000_0000) as u64
            } else {
                (safe_epoch - node_epoch) as u64
            }),
            b == (if a - 1 < 0 {
                (a - 1 + 0x1_0000_0000_0000_0000) as u64
            } else {
                (a - 1) as u64
            }),
            d == b & 0x7fff_ffff_ffff_ffffu64,
    ;
    d < EPOCH_MASK_HALF - 1
}

/// Whether `epoch` is `than` or lies behind it by less than half the epoch space.
pub fn is_not_newer(epoch: u64, than: u64) -> (r: bool)
    ensures
        r == not_newer(epoch, than),
{
    let d = than.wrapping_sub(epoch) & EPOCH_MASK;
    proof {
        lemma_epoch_constants();
    }
    let ghost a = than.wrapping_sub(epoch);
    assert(d == (than - epoch) % 0x8000_0000_0000_0000) by (bit_vector)
        requires
            a == (if than - epoch < 0 {
                (than - epoch + 0x1_0000_0000_0000_0000) as u64
            } else {
                (than - epoch) as u64
            }),
            d == a & 0x7fff_ffff_ffff_ffffu64,
    ;
    d < EPOCH_MASK / 2
}

/// The oldest epoch still in use, from the global epoch and a reading of every
/// worker's local epoch: each local epoch in a critical section replaces the
/// running answer when it is not newer than it.
pub fn oldest_active_epoch(global: u64, locals: &[u64]) -> (r: u64)
    ensures
        r == oldest_fold(global, locals@),
{
    let mut min_epoch = global;
    let mut i: usize = 0;
    while i < locals.len()
        invariant
            i <= locals@.len(),
            min_epoch == oldest_fold(global, locals@.take(i as int)),
        decreases locals@.len() - i,
    {
        let e = locals[i];
        assert(locals@.take(i as int + 1).drop_last() == locals@.take(i as int));
        if e != NOT_IN_CRITICAL {
            if is_not_newer(e, min_epoch) {
                min_epoch = e;
            }
        }
        i = i + 1;
    }
    assert(locals@.take(locals@.len() as int) == locals@);
    min_epoch
}

/// The oldest epoch in use is the global epoch or the epoch of some worker
/// inside a critical section.
pub proof fn lemma_oldest_is_in_use(global: u64, locals: Seq<u64>)
    ensures
        active_candidate(global, locals, oldest_fold(global, locals)),
    decreases locals.len(),
{
    if locals.len() > 0 {
        let init = locals.drop_last();
        lemma_oldest_is_in_use(global, init);
        let m = oldest_fold(global, init);
        if m != global {
            let i = choose|i: int| 0 <= i < init.len() && init[i] != NOT_IN_CRITICAL && init[i] == m;
            assert(locals[i] == init[i]);
        }
        let last = locals.len() - 1;
        assert(locals[last] == locals.last());
    }
}

/// While every worker in a critical section is less than half the epoch space
/// behind the global epoch, the oldest epoch in use is at least as old as each
/// of theirs, and no older than half the space.
pub proof fn lemma_oldest_is_oldest(global: u64, locals: Seq<u64>)
    requires
        global <= EPOCH_MASK,
        within_window(global, locals),
    ensures
        age(global, oldest_fold(global, locals)) < EPOCH_MASK_HALF,
        forall|i: int| 0 <= i < locals.len() && locals[i] != NOT_IN_CRITICAL ==>
            age(global, #[trigger] locals[i]) <= age(global, oldest_fold(global, locals)),
    decreases locals.len(),
{
    lemma_epoch_constants();
    if locals.len() > 0 {
        let init = locals.drop_last();
        assert forall|i: int| 0 <= i < init.len() && init[i] != NOT_IN_CRITICAL implies
            age(global, #[trigger] init[i]) < EPOCH_MASK_HALF by {
            assert(init[i] == locals[i]);
        }
        lemma_oldest_is_oldest(global, init);
        let m = oldest_fold(global, init);
        let e = locals.last();
        let last = locals.len() - 1;
        assert(locals[last] == e);
        if e != NOT_IN_CRITICAL {
            // Both lie in the window behind the global epoch, so the distance
            // from m to e is the difference of their ages, taken modulo.
            lemma_distance_by_ages(global as int, m as int, e as int);
        }
        assert forall|i: int| 0 <= i < locals.len() && locals[i] != NOT_IN_CRITICAL implies
            age(global, #[trigger] locals[i]) <= age(global, oldest_fold(global, locals)) by {
            if i < last {
                assert(init[i] == locals[i]);
            }
        }
    }
}

/// The reclamation rule is safe: while every worker in a critical section is
/// less than half the epoch space behind the global epoch, a node that may be
/// freed against the oldest epoch in use is strictly older than the epoch of
/// every such worker.
pub proof fn lemma_reclaim_precedes_every_active_worker(global: u64, locals: Seq<u64>, node_epoch: u64)
    requires
        global <= EPOCH_MASK,
        within_window(global, locals),
        reclaimable(oldest_fold(global, locals), node_epoch),
    ensures
        forall|i: int| 0 <= i < locals.len() && locals[i] != NOT_IN_CRITICAL ==>
            age(global, node_epoch) > age(global, #[trigger] locals[i]),
        age(global, node_epoch) > age(global, global),
{
    lemma_oldest_is_oldest(global, locals);
    let r = oldest_fold(global, locals);
    lemma_epoch_constants();
    lemma_distance_by_ages(global as int, r as int, node_epoch as int);
    let an = age(global, node_epoch);
    let ar = age(global, r);
    assert(an > ar);
    assert forall|i: int| 0 <= i < locals.len() && locals[i] != NOT_IN_CRITICAL implies
        age(global, node_epoch) > age(global, #[trigger] locals[i]) by {
        assert(age(global, locals[i]) <= ar);
    }
}

/// The value a tick counter takes next, and whether it wrapped round to zero.
pub open spec fn tick_step(tick: u8) -> (u8, bool) {
    (((tick + 1) % 256) as u8, tick == 255)
}

/// How many of `k` successive ticks, starting from `tick`, wrap round to zero.
pub open spec fn wraps_in(tick: u8, k: nat) -> nat
    decreases k,
{
    if k == 0 {
        0
    } else {
        let (next, wrapped) = tick_step(tick);
        (if wrapped { 1nat } else { 0nat }) + wraps_in(next, (k - 1) as nat)
    }
}

/// Advances a tick counter by one, wrapping at 256, and tells whether it
/// wrapped round to zero.
pub fn next_tick(tick: u8) -> (r: (u8, bool))
    ensures
        r == tick_step(tick),
{
    let next = tick.wrapping_add(1);
    (next, next == 0)
}

/// A tick counter wraps exactly once every 256 ticks: of `k` successive ticks
/// from `tick`, `(tick + k) / 256` wrap.
pub proof fn lemma_wraps_every_256(tick: u8, k: nat)
    ensures
        wraps_in(tick, k) == (tick + k) / 256,
    decreases k,
{
    if k > 0 {
        let (next, wrapped) = tick_step(tick);
        lemma_wraps_every_256(next, (k - 1) as nat);
    }
}

} // verus!
