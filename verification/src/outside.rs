//! The std items that the library calls and that vstd gives no specification:
//! the start address of a slice, and the lock and condition variable that
//! blocking waits sleep on. A lock and its condition variable always come as
//! one pair, and only the wrappers here take the lock.

use crate::count::{is_zero, unchanged};
use crate::reading::{count_read, read_count};
use crate::padded_type::PaddedAtomicUsize;
use std::sync::atomic::Ordering;
use std::sync::{Condvar, Mutex};
use std::time::Duration;
use vstd::prelude::*;

verus! {

#[verifier::external_type_specification]
#[verifier::external_body]
#[verifier::reject_recursive_types(T)]
pub struct ExMutex<T: ?Sized>(std::sync::Mutex<T>);

#[verifier::external_type_specification]
#[verifier::external_body]
pub struct ExCondvar(std::sync::Condvar);

/// Calls `<[T]>::as_ptr` and casts the pointer to its address, which exposes
/// the pointer's provenance so that the address may be turned back into a
/// pointer to an element. The contract states what std documents of every
/// allocation, and so of the slice inside one: its base address plus its size
/// in bytes, here `len * size_of::<T>()`, is at most `usize::MAX`. Which
/// address comes back depends on the memory the slice lives in and is not
/// stated.
#[verifier::external_body]
pub(crate) fn slice_address<T>(s: &[T]) -> (addr: usize)
    ensures
        addr + s@.len() * vstd::layout::size_of::<T>() <= usize::MAX,
{
    s.as_ptr() as usize
}

/// Calls `Mutex::new` on the unit value. Nothing is stated: a mutex holds no
/// value that the library reads.
#[verifier::external_body]
pub(crate) fn new_unit_mutex() -> (m: Mutex<()>) {
    Mutex::new(())
}

/// Calls `Condvar::new`. Nothing is stated.
#[verifier::external_body]
pub(crate) fn new_condvar() -> (c: Condvar) {
    Condvar::new()
}

/// Whether the counter, read once, is not zero. The only code that the
/// waiting wrappers below run while they hold a lock is this and
/// `counter_equals`: plain reads of an atomic.
pub fn counter_nonzero(counter: &PaddedAtomicUsize) -> (r: bool)
    ensures
        exists|v: usize| #[trigger] count_read(counter, v) && r == (v != 0),
{
    let v = read_count(counter, Ordering::SeqCst);
    assert(count_read(counter, v));
    !is_zero(v)
}

/// Whether the counter, read once, holds `value`.
pub fn counter_equals(counter: &PaddedAtomicUsize, value: usize) -> (r: bool)
    ensures
        exists|v: usize| #[trigger] count_read(counter, v) && r == (v == value),
{
    let v = read_count(counter, Ordering::SeqCst);
    assert(count_read(counter, v));
    unchanged(v, value)
}

/// Calls `Mutex::lock` on the pair's mutex, then `Condvar::notify_all` on the
/// pair's condition variable, and releases the lock: wakes every thread that
/// waits on the pair. Every lock of the library is taken inside one of these
/// wrappers, which run no caller code while they hold it, so a thread never
/// locks a mutex that it holds already, and no panic can poison the lock; the
/// error arm only takes the guard out of the error. Nothing is stated.
#[verifier::external_body]
pub(crate) fn notify_all_locked(pair: &(Mutex<()>, Condvar)) {
    let _guard = match pair.0.lock() {
        Ok(g) => g,
        Err(e) => e.into_inner(),
    };
    pair.1.notify_all();
}

/// Calls `Mutex::lock` on the pair's mutex, then `Condvar::wait_while` on the
/// pair's condition variable while `counter_nonzero(counter)` holds, and
/// releases the lock. The condition variable only ever waits with the mutex
/// of its own pair, so it never meets a second mutex. Returns the answer that
/// the condition gave last: std documents that `wait_while` returns only once
/// the condition answered `false`, so that answer is `false`, and it is one
/// that `counter_nonzero(counter)` gave.
#[verifier::external_body]
pub(crate) fn wait_while_nonzero(pair: &(Mutex<()>, Condvar), counter: &PaddedAtomicUsize) -> (last: bool)
    ensures
        !last,
        call_ensures(counter_nonzero, (counter,), last),
{
    let guard = match pair.0.lock() {
        Ok(g) => g,
        Err(e) => e.into_inner(),
    };
    let _guard = match pair.1.wait_while(guard, |_| counter_nonzero(counter)) {
        Ok(g) => g,
        Err(e) => e.into_inner(),
    };
    false
}

/// As `wait_while_nonzero`, through `Condvar::wait_timeout_while`: gives up
/// after roughly `timeout`. The result is `WaitTimeoutResult::timed_out`;
/// which way the wait ended depends on other threads and the clock. std
/// documents that it is `true` only when the timeout elapsed without the
/// condition being met: when it is `false`, the condition last answered
/// `false`, an answer that `counter_nonzero(counter)` gave.
#[verifier::external_body]
pub(crate) fn wait_timeout_while_nonzero(
    pair: &(Mutex<()>, Condvar),
    counter: &PaddedAtomicUsize,
    timeout: Duration,
) -> (timed_out: bool)
    ensures
        !timed_out ==> call_ensures(counter_nonzero, (counter,), timed_out),
{
    let guard = match pair.0.lock() {
        Ok(g) => g,
        Err(e) => e.into_inner(),
    };
    match pair.1.wait_timeout_while(guard, timeout, |_| counter_nonzero(counter)) {
        Ok((_g, t)) => t.timed_out(),
        Err(e) => e.into_inner().1.timed_out(),
    }
}

/// As `wait_while_nonzero`, but waits while `counter_equals(counter, value)`
/// holds: until the counter has moved away from `value`.
#[verifier::external_body]
pub(crate) fn wait_while_equal(pair: &(Mutex<()>, Condvar), counter: &PaddedAtomicUsize, value: usize) {
    let guard = match pair.0.lock() {
        Ok(g) => g,
        Err(e) => e.into_inner(),
    };
    let _guard = match pair.1.wait_while(guard, |_| counter_equals(counter, value)) {
        Ok(g) => g,
        Err(e) => e.into_inner(),
    };
}

} // verus!
