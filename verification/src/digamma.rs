//! The digamma function at the positive integers, by its asymptotic
//! expansion.
//!
//! The expansion in powers of `1/m^2` is accurate from `m = 7` on. A smaller
//! argument is lifted there by the recurrence
//! `digamma(n) = digamma(n + 1) - 1/n`.
use vstd::prelude::*;

verus! {

/// The least argument at which the asymptotic expansion is used.
pub const EXPANSION_START: i32 = 7;

/// How `digamma(n)` is evaluated: the expansion is taken at `expand_at`,
/// and the reciprocals of `first, first + 1, ..., expand_at - 1` are
/// subtracted from it.
#[derive(Clone, Copy, Debug, PartialEq, Eq, Structural)]
pub struct DigammaPlan {
    pub first: i32,
    pub expand_at: i32,
}

impl DigammaPlan {
    /// The number of reciprocals that the recurrence subtracts.
    pub open spec fn steps(self) -> int {
        self.expand_at - self.first
    }
}

/// The plan for `digamma(n)`, `n > 0`: the expansion is taken at the
/// larger of `n` and 7, so the recurrence runs only below 7, for at most
/// six steps.
pub fn digamma(n: i32) -> (plan: DigammaPlan)
    requires
        n > 0,
    ensures
        plan.first == n,
        plan.expand_at == if n < EXPANSION_START {
            EXPANSION_START
        } else {
            n
        },
        0 <= plan.steps() <= 6,
        plan.steps() == 0 <==> n >= EXPANSION_START,
{
    if n < EXPANSION_START {
        DigammaPlan { first: n, expand_at: EXPANSION_START }
    } else {
        DigammaPlan { first: n, expand_at: n }
    }
}

} // verus!
