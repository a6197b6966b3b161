//! Integer helpers on `i32`.

use vstd::prelude::*;

verus! {

/// Returns `x + 1`.
pub fn plus_one(x: i32) -> (r: i32)
    requires
        x < i32::MAX,
    ensures
        r == x + 1,
{
    x + 1
}

/// Adds one inside an inner block, then one more: returns `x + 2`.
pub fn inner_scope(x: i32) -> (r: i32)
    requires
        x <= i32::MAX - 2,
    ensures
        r == x + 2,
{
    let y: i32 = {
        let z: i32 = x;
        z + 1
    };
    y + 1
}

} // verus!
