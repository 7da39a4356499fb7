//! The decisions that the library takes on values read from shared counters
//! and from the end of a wait. Each takes the value read as an argument, so
//! that what it decides is stated for every value another thread may leave.

use vstd::prelude::*;

verus! {

/// Whether a count read from a shared counter means "nothing left".
pub fn is_zero(value: usize) -> (r: bool)
    ensures
        r == (value == 0),
{
    value == 0
}

/// Whether a subtraction of `taken` that found `previous` in the counter took
/// it to zero: that is, whether it took the last ones.
pub fn took_last(previous: usize, taken: usize) -> (r: bool)
    ensures
        r == (previous == taken),
{
    previous == taken
}

/// Whether a counter read as `read` still holds the value `seen` noted before.
pub fn unchanged(read: usize, seen: usize) -> (r: bool)
    ensures
        r == (read == seen),
{
    read == seen
}

/// Whether a claim cursor read as `cursor` is still short of `len`.
pub fn cursor_short_of(cursor: usize, len: usize) -> (r: bool)
    ensures
        r == (cursor < len),
{
    cursor < len
}

/// The answer of a wait with a timeout: `true` when the wait ended without
/// timing out (the tasks had finished), and otherwise whether they were
/// finished by the time of the timeout.
pub fn wait_outcome(timed_out: bool, complete_after: bool) -> (r: bool)
    ensures
        r == (!timed_out || complete_after),
{
    if timed_out {
        complete_after
    } else {
        true
    }
}

} // verus!
