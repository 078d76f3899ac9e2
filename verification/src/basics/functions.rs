//! Functions that return a value.

use vstd::prelude::*;

verus! {

/// The number five.
pub fn five() -> (n: i32)
    ensures
        n == 5,
{
    5
}

/// The successor of `y`. There is none in `i32` for `i32::MAX`.
pub fn plus_one(y: i32) -> (n: i32)
    requires
        y < i32::MAX,
    ensures
        n == y + 1,
{
    y + 1
}

} // verus!
