//! Functions that return a value, with and without `return`.

use vstd::prelude::*;

verus! {

/// Squares `x`, with an explicit `return`.
pub fn square(x: i64) -> (r: i64)
    requires
        x * x <= i64::MAX,
    ensures
        r == x * x,
{
    assert(x * x >= 0) by (nonlinear_arith);
    return x * x;
}

/// Squares `x`, returning the last expression.
pub fn square_no_return(x: i64) -> (r: i64)
    requires
        x * x <= i64::MAX,
    ensures
        r == x * x,
{
    assert(x * x >= 0) by (nonlinear_arith);
    x * x
}

} // verus!
