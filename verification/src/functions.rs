//! Helpers for the functions walkthrough: returning a value implicitly and
//! explicitly.

use vstd::prelude::*;

verus! {

/// Return five, by an implicit tail expression.
pub fn get_five() -> (five: i32)
    ensures
        five == 5,
{
    5
}

/// Return the successor of `x`, by an explicit `return`.
pub fn add_one(x: i32) -> (incremented: i32)
    requires
        x < i32::MAX,
    ensures
        incremented == x + 1,
{
    return x + 1;
}

} // verus!
