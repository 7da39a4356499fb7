//! Single reads and read-modify-writes of the shared atomics. Another thread
//! may change an atomic at any moment, so nothing fixes the value that one of
//! these returns; what the library states is that a value came from such a
//! read. `count_read(c, v)` says that reading `c` gave (or may give) `v`: it
//! holds of every value these functions have returned, and of no value that
//! was made up rather than read.

use crate::padded_type::{PaddedAtomicUsize, PaddedType};
use std::sync::atomic::{AtomicBool, AtomicU64, AtomicUsize, Ordering};
use vstd::prelude::*;

verus! {

/// Reads a padded counter once.
pub fn read_count(counter: &PaddedAtomicUsize, order: Ordering) -> (v: usize) {
    counter.load(order)
}

/// Adds `n` to a padded counter, wrapping, and returns the value it replaced.
pub fn add_count(counter: &PaddedAtomicUsize, n: usize, order: Ordering) -> (previous: usize) {
    counter.fetch_add(n, order)
}

/// Subtracts `n` from a padded counter, wrapping, and returns the value it
/// replaced.
pub fn take_count(counter: &PaddedAtomicUsize, n: usize, order: Ordering) -> (previous: usize) {
    counter.fetch_sub(n, order)
}

/// Reads a counter once.
pub fn read_plain(counter: &AtomicUsize, order: Ordering) -> (v: usize) {
    counter.load(order)
}

/// Subtracts `n` from a counter, wrapping, and returns the value it replaced.
pub fn take_plain(counter: &AtomicUsize, n: usize, order: Ordering) -> (previous: usize) {
    counter.fetch_sub(n, order)
}

/// Reads an epoch slot once.
pub fn read_epoch(slot: &PaddedType<AtomicU64, 56>, order: Ordering) -> (v: u64) {
    slot.load(order)
}

/// Reads a flag once.
pub fn read_flag(flag: &AtomicBool, order: Ordering) -> (v: bool) {
    flag.load(order)
}

/// Reading `counter` gave `v`.
pub open spec fn count_read(counter: &PaddedAtomicUsize, v: usize) -> bool {
    exists|o: Ordering| #[trigger] call_ensures(read_count, (counter, o), v)
}

/// Adding `n` to `counter` found `previous` there.
pub open spec fn count_added(counter: &PaddedAtomicUsize, n: usize, previous: usize) -> bool {
    exists|o: Ordering| #[trigger] call_ensures(add_count, (counter, n, o), previous)
}

/// Subtracting `n` from `counter` found `previous` there.
pub open spec fn count_taken(counter: &PaddedAtomicUsize, n: usize, previous: usize) -> bool {
    exists|o: Ordering| #[trigger] call_ensures(take_count, (counter, n, o), previous)
}

/// Reading `counter` gave `v`.
pub open spec fn plain_read(counter: &AtomicUsize, v: usize) -> bool {
    exists|o: Ordering| #[trigger] call_ensures(read_plain, (counter, o), v)
}

/// Subtracting `n` from `counter` found `previous` there.
pub open spec fn plain_taken(counter: &AtomicUsize, n: usize, previous: usize) -> bool {
    exists|o: Ordering| #[trigger] call_ensures(take_plain, (counter, n, o), previous)
}

/// Reading the epoch slot gave `v`.
pub open spec fn epoch_read(slot: &PaddedType<AtomicU64, 56>, v: u64) -> bool {
    exists|o: Ordering| #[trigger] call_ensures(read_epoch, (slot, o), v)
}

/// Reading the flag gave `v`.
pub open spec fn flag_read(flag: &AtomicBool, v: bool) -> bool {
    exists|o: Ordering| #[trigger] call_ensures(read_flag, (flag, o), v)
}

} // verus!
