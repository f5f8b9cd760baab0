//! The gamma function at the positive integers.
use crate::ieee::Binary64;
use crate::li::fac::{fac, fac_spec, is_factorial};
use vstd::prelude::*;

verus! {

/// The gamma function at the integer `n > 0`, which is `(n - 1)!`: to
/// within one unit in the last place up to `gamma(171)`, and positive
/// infinity beyond.
pub fn gamma(n: i32) -> (g: Binary64)
    requires
        n >= 1,
    ensures
        g == fac_spec(n - 1),
        !g.nan() && !g.sign() && !g.zero(),
        g.infinite() <==> n > 171,
        n <= 171 ==> is_factorial(g, (n - 1) as nat),
{
    fac(n - 1)
}

} // verus!
