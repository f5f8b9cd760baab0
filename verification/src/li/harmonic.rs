//! The harmonic numbers `H(n) = 1 + 1/2 + ... + 1/n`.
use vstd::prelude::*;

verus! {

/// The least `n` from which `H(n)` is taken from the digamma function.
pub const DIRECT_SUM_END: i32 = 20;

/// How the harmonic number `H(n)` is evaluated.
#[derive(Clone, Copy, Debug, PartialEq, Eq, Structural)]
pub enum HarmonicPlan {
    /// `n < 20`: the sum of the reciprocals of `1, 2, ..., terms`, in this
    /// order.
    Sum { terms: i32 },
    /// `n >= 20`: Euler's constant plus the digamma function at `at`.
    Digamma { at: i32 },
}

/// The plan for the harmonic number `H(n)`, `n > 0`. The digamma function
/// is taken at `n + 1`, which is at least 21: its recurrence is never
/// needed here.
pub fn harmonic(n: i32) -> (plan: HarmonicPlan)
    requires
        0 < n < i32::MAX,
    ensures
        n < DIRECT_SUM_END ==> plan == (HarmonicPlan::Sum { terms: n }),
        n >= DIRECT_SUM_END ==> plan == (HarmonicPlan::Digamma { at: (n + 1) as i32 }),
{
    if n < DIRECT_SUM_END {
        HarmonicPlan::Sum { terms: n }
    } else {
        HarmonicPlan::Digamma { at: n + 1 }
    }
}

} // verus!
