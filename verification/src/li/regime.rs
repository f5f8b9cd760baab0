//! What the real and the complex general-order engines share: the parity of
//! the order, the sign of the inversion formula, and the choice among the
//! three representations of a polylogarithm of negative order.
use crate::ieee::{b64, lemma_threshold_values, Binary64, NEG_ONE, ONE};
use vstd::arithmetic::power2::pow2;
use vstd::prelude::*;

verus! {

/// The bits of `(0.512 * 2 pi)^2`, computed as `0.512 * 0.512 * (4 pi^2)`:
/// below this squared modulus of `log(z)` the expansion around `z = 1`
/// serves a negative order.
pub const UNITY_BOUND: u64 = 0x4024_b2b4_199e_149a;

/// Whether `x` is an even integer.
pub fn is_even(x: i32) -> (even: bool)
    ensures
        even == (x % 2 == 0),
{
    if x >= 0 {
        x % 2 == 0
    } else {
        (-1 - x) % 2 == 1
    }
}

/// The factor `-(-1)^n` of the inversion formula, -1 for an even order and
/// 1 for an odd one, as the bits of -1 or 1.
pub open spec fn odd_sgn_spec(n: int) -> Binary64 {
    if n % 2 == 0 {
        b64(NEG_ONE)
    } else {
        b64(ONE)
    }
}

/// The factor `-(-1)^n` of the inversion formula.
pub fn odd_sgn(n: i32) -> (s: Binary64)
    ensures
        s == odd_sgn_spec(n as int),
        s.scaled() == if n % 2 == 0 {
            -(pow2(1074) as int)
        } else {
            pow2(1074) as int
        },
{
    proof {
        lemma_threshold_values();
    }
    if is_even(n) {
        b64(NEG_ONE)
    } else {
        b64(ONE)
    }
}

/// The representation of a polylogarithm of order below -1.
#[derive(Clone, Copy, Debug, PartialEq, Eq, Structural)]
pub enum NegativeOrder {
    /// `4 pi^2 |z|^2 < |log z|^2`: the power series in `z`.
    Series,
    /// Otherwise, with `|log z|^2 < (0.512 * 2 pi)^2`: the expansion around
    /// `z = 1`.
    NearUnity,
    /// Otherwise: the argument is far from both. A real argument takes the
    /// power series in `1/x`; a complex one halves `log(z)` by the square
    /// root, `Li_n(z) = 2^(n-1) (Li_n(sqrt z) + Li_n(-sqrt z))`.
    Far,
}

/// The representation for `scaled_norm_sqr = 4 pi^2 |z|^2` and
/// `log_norm_sqr = |log z|^2`.
pub open spec fn negative_order_spec(scaled_norm_sqr: Binary64, log_norm_sqr: Binary64)
    -> NegativeOrder {
    if scaled_norm_sqr.lt_spec(log_norm_sqr) {
        NegativeOrder::Series
    } else if log_norm_sqr.lt_spec(b64(UNITY_BOUND)) {
        NegativeOrder::NearUnity
    } else {
        NegativeOrder::Far
    }
}

/// The representation of a polylogarithm of order below -1, from
/// `4 pi^2 |z|^2` and `|log z|^2` as computed. The power series comes first:
/// where both it and the expansion around 1 would serve, it is taken.
pub fn negative_order(scaled_norm_sqr: Binary64, log_norm_sqr: Binary64) -> (r: NegativeOrder)
    ensures
        r == negative_order_spec(scaled_norm_sqr, log_norm_sqr),
        r == NegativeOrder::Far <==> !scaled_norm_sqr.lt_spec(log_norm_sqr)
            && !log_norm_sqr.lt_spec(b64(UNITY_BOUND)),
{
    if scaled_norm_sqr.lt(log_norm_sqr) {
        NegativeOrder::Series
    } else if log_norm_sqr.lt(b64(UNITY_BOUND)) {
        NegativeOrder::NearUnity
    } else {
        NegativeOrder::Far
    }
}

} // verus!
