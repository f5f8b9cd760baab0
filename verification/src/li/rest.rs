//! The terms of the inversion formula
//!
//! `Li_n(-z) + (-1)^n Li_n(-1/z)
//!     = -log(z)^n / n! + 2 sum(k = 1 .. n/2, log(z)^(n-2k) / (n-2k)! * Li_(2k)(-1))`
//!
//! which carries an argument outside the unit disk to its reciprocal. The
//! sum runs from `k = n/2` down to `k = 1`, that is from the lowest power of
//! the logarithm up, and ends early where `1/(n-2k)!` has become zero: the
//! terms beyond are zero as well.
use crate::ieee::Binary64;
use crate::li::eta::{lemma_neg_eta_range, neg_eta, neg_eta_spec};
use crate::li::fac::{inv_fac, inv_fac_spec};
use vstd::prelude::*;

verus! {

/// The coefficients of the term `k` of the sum.
#[derive(Clone, Copy, Debug, PartialEq, Eq, Structural)]
pub struct RestTerm {
    /// `Li_(2k)(-1) = -eta(2k)`.
    pub eta: Binary64,
    /// `1/(n-2k)!`, the reciprocal of the factorial of the power of the
    /// logarithm.
    pub inv_fac: Binary64,
}

/// The number of terms of the sum, `n/2` rounded down.
pub open spec fn rest_terms_spec(n: int) -> int {
    n / 2
}

/// The power of the logarithm in the term `k`.
pub open spec fn rest_power(n: int, k: int) -> int {
    n - 2 * k
}

/// The term `k`, or none where its factorial is beyond the table.
pub open spec fn rest_term_spec(n: int, k: int) -> Option<RestTerm> {
    if inv_fac_spec(rest_power(n, k)).zero() {
        None
    } else {
        Some(RestTerm { eta: neg_eta_spec(2 * k), inv_fac: inv_fac_spec(rest_power(n, k)) })
    }
}

/// The number of terms of the sum for the order `n`.
pub fn rest_terms(n: i32) -> (terms: i32)
    requires
        n >= 0,
    ensures
        terms == rest_terms_spec(n as int),
        0 <= 2 * terms <= n,
        n - 2 * terms == n % 2,
{
    n / 2
}

/// The coefficients of the term `k` of the sum for the order `n`, or none
/// if `1/(n-2k)!` is zero, which ends the sum.
pub fn rest_term(n: i32, k: i32) -> (term: Option<RestTerm>)
    requires
        1 <= k,
        2 * k <= n,
    ensures
        term == rest_term_spec(n as int, k as int),
        term is None <==> n - 2 * k > 177,
        term matches Some(t) ==> t.eta.finite() && t.eta.sign() && t.inv_fac.finite()
            && !t.inv_fac.sign() && !t.inv_fac.zero(),
{
    proof {
        lemma_neg_eta_range(2 * k);
    }
    let inv = inv_fac(n - 2 * k);
    if inv.is_zero() {
        None
    } else {
        Some(RestTerm { eta: neg_eta(2 * k), inv_fac: inv })
    }
}

/// Once a term is missing, every term of a higher power of the logarithm is
/// missing too: the sum may end at the first.
pub proof fn lemma_rest_ends_for_good(n: int, k: int, j: int)
    requires
        1 <= j <= k,
        2 * k <= n,
        rest_term_spec(n, k) is None,
    ensures
        rest_term_spec(n, j) is None,
{
}

/// The order of eta and the power of the logarithm of a term add up to the
/// order of the polylogarithm, and the power has the parity of the order.
pub proof fn lemma_rest_term_orders(n: int, k: int)
    requires
        1 <= k <= rest_terms_spec(n),
    ensures
        0 <= rest_power(n, k) <= n - 2,
        2 * k + rest_power(n, k) == n,
        rest_power(n, k) % 2 == n % 2,
        rest_power(n, rest_terms_spec(n)) == n % 2,
{
}

} // verus!
