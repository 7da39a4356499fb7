//! A stand-alone cache-line sized atomic counter.

use std::sync::atomic::{AtomicUsize, Ordering};
use vstd::prelude::*;

verus! {

/// An atomic usize followed by padding up to 64 bytes, so that counters
/// stored side by side start a cache line apart.
pub struct PaddedAtomicUsize {
    value: AtomicUsize,
    _pad: [u8; 56],
}

impl PaddedAtomicUsize {
    /// A counter holding `value`.
    pub fn new(value: usize) -> (r: PaddedAtomicUsize) {
        PaddedAtomicUsize { value: AtomicUsize::new(value), _pad: [0; 56] }
    }

    /// Reads the counter with the given memory ordering.
    pub fn load(&self, order: Ordering) -> (r: usize) {
        self.value.load(order)
    }

    /// Adds `val`, wrapping around on overflow, and returns the value it
    /// replaced.
    pub fn fetch_add(&self, val: usize, order: Ordering) -> (r: usize) {
        self.value.fetch_add(val, order)
    }

    /// Subtracts `val`, wrapping around on underflow, and returns the value it
    /// replaced.
    pub fn fetch_sub(&self, val: usize, order: Ordering) -> (r: usize) {
        self.value.fetch_sub(val, order)
    }
}

} // verus!
