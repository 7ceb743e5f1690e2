//! The highlighted row of a prompt: a 1-based position that wraps around
//! at both ends of the list.
use vstd::prelude::*;

verus! {

/// The position one row up: from the first row to the last.
pub open spec fn wrapped_up(pos: nat, total: nat) -> nat {
    if pos <= 1 {
        total
    } else {
        (pos - 1) as nat
    }
}

/// The position one row down: from the last row to the first.
pub open spec fn wrapped_down(pos: nat, total: nat) -> nat {
    if pos >= total {
        1
    } else {
        pos + 1
    }
}

/// Moves the cursor one row up, wrapping to the last row.
pub fn wrap_up(pos: usize, total: usize) -> (r: usize)
    requires
        1 <= pos <= total,
    ensures
        r == wrapped_up(pos as nat, total as nat),
        1 <= r <= total,
{
    if pos <= 1 {
        total
    } else {
        pos - 1
    }
}

/// Moves the cursor one row down, wrapping to the first row.
pub fn wrap_down(pos: usize, total: usize) -> (r: usize)
    requires
        1 <= pos <= total,
    ensures
        r == wrapped_down(pos as nat, total as nat),
        1 <= r <= total,
{
    if pos >= total {
        1
    } else {
        pos + 1
    }
}

} // verus!
