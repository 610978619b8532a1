//! Stepping a counter that may be absent.

use vstd::prelude::*;

verus! {

/// The integer that follows `i` among the 32-bit signed integers: `i + 1`,
/// except that the largest of them is followed by the smallest.
pub open spec fn successor(i: i32) -> i32 {
    if i < i32::MAX {
        (i + 1) as i32
    } else {
        i32::MIN
    }
}

/// Adds one to the value inside `x`, if there is one.
///
/// An absent value stays absent. A present value `i` becomes `i + 1`;
/// at the upper end of `i32` the addition wraps around, so that
/// `Some(i32::MAX)` becomes `Some(i32::MIN)`. The function never panics
/// and never turns a present value into an absent one.
pub fn plus_one(x: Option<i32>) -> (y: Option<i32>)
    ensures
        x is None ==> y is None,
        x matches Some(i) ==> y == Some(successor(i)),
{
    match x {
        None => None,
        Some(i) => Some(i.wrapping_add(1)),
    }
}

/// Below the upper end of `i32` the successor is the mathematical one:
/// no wrapping takes place, and the result is larger than the argument.
pub proof fn lemma_successor_is_exact(i: i32)
    requires
        i < i32::MAX,
    ensures
        successor(i) == i + 1,
        successor(i) > i,
{
}

} // verus!
