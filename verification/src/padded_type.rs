//! Padding that keeps values stored side by side a cache line apart.

use std::ops::Deref;
use std::sync::atomic::AtomicUsize;
use vstd::prelude::*;

verus! {

/// A value followed by `PAD` bytes of padding, so that values stored side by
/// side start a cache line apart.
pub struct PaddedType<T, const PAD: usize> {
    value: T,
    _pad: [u8; PAD],
}

impl<T, const PAD: usize> PaddedType<T, PAD> {
    /// The wrapped value.
    pub closed spec fn inner(&self) -> T {
        self.value
    }

    /// Wraps `value`, with zeroed padding.
    pub fn new_padded(value: T) -> (r: Self)
        ensures
            r.inner() == value,
    {
        PaddedType { value, _pad: [0; PAD] }
    }
}

impl<T, const PAD: usize> Deref for PaddedType<T, PAD> {
    type Target = T;

    fn deref(&self) -> (r: &T)
        ensures
            *r == self.inner(),
    {
        &self.value
    }
}

/// An atomic counter padded to a cache line of 64 bytes.
pub type PaddedAtomicUsize = PaddedType<AtomicUsize, 56>;

impl PaddedType<AtomicUsize, 56> {
    /// A padded counter holding `value`.
    pub fn new(value: usize) -> (r: Self) {
        Self::new_padded(AtomicUsize::new(value))
    }
}

} // verus!
