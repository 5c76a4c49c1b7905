//! Functions that return values.
use vstd::prelude::*;

verus! {

/// Returns five.
pub fn five() -> (r: i32)
    ensures
        r == 5,
{
    5
}

/// Returns `x + 1`; `x` must be below the largest `i32`.
pub fn plus_one(x: i32) -> (r: i32)
    requires
        x < i32::MAX,
    ensures
        r == x + 1,
{
    x + 1
}

} // verus!
