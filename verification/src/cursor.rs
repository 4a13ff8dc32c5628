//! The selection cursor: an index into a sequence of shown files that is
//! kept inside the sequence whenever the sequence changes.

use vstd::prelude::*;

verus! {

/// The index a cursor takes once the sequence it points into has `len` items:
/// zero for an empty sequence, the last position when `index` lies beyond it,
/// and `index` itself otherwise.
pub open spec fn clamped(index: int, len: int) -> int {
    if len <= 0 || index < 0 {
        0
    } else if index >= len {
        len - 1
    } else {
        index
    }
}

/// A cursor at `index` is valid for a sequence of `len` items.
pub open spec fn in_bounds(index: int, len: int) -> bool {
    if len == 0 {
        index == 0
    } else {
        0 <= index < len
    }
}

/// Re-clamps a cursor after the sequence it points into was replaced.
pub fn clamp(index: usize, len: usize) -> (r: usize)
    ensures
        r == clamped(index as int, len as int),
        in_bounds(r as int, len as int),
{
    if len == 0 {
        0
    } else if index >= len {
        len - 1
    } else {
        index
    }
}

/// The index after a step towards the start: one less, but never below zero.
pub open spec fn moved_up(index: int) -> int {
    if index > 0 {
        index - 1
    } else {
        index
    }
}

/// The index after a step towards the end of a sequence of `len` items: one
/// more, unless that would leave the sequence.
pub open spec fn moved_down(index: int, len: int) -> int {
    if index + 1 < len {
        index + 1
    } else {
        index
    }
}

/// The position a cursor points at, if the sequence has one there.
pub open spec fn selected(index: int, len: int) -> Option<int> {
    if 0 <= index < len {
        Some(index)
    } else {
        None
    }
}

/// The position a cursor points at: none in an empty sequence.
pub fn selection(index: usize, len: usize) -> (r: Option<usize>)
    ensures
        r == match selected(index as int, len as int) {
            Some(at) => Some(at as usize),
            None => None,
        },
        in_bounds(index as int, len as int) ==> (r is None <==> len == 0),
{
    if index < len {
        Some(index)
    } else {
        None
    }
}

/// Moves a cursor one step towards the start.
pub fn step_up(index: usize) -> (r: usize)
    ensures
        r == moved_up(index as int),
        forall|len: int| in_bounds(index as int, len) ==> in_bounds(r as int, len),
{
    if index > 0 {
        index - 1
    } else {
        index
    }
}

/// Moves a cursor one step towards the end of a sequence of `len` items.
pub fn step_down(index: usize, len: usize) -> (r: usize)
    ensures
        r == moved_down(index as int, len as int),
        in_bounds(index as int, len as int) ==> in_bounds(r as int, len as int),
{
    if len > 0 && index < len - 1 {
        index + 1
    } else {
        index
    }
}

} // verus!
