//! The complex polylogarithm of any integer order.
use crate::complex::{complex, ComplexBits};
use crate::ieee::{
    b64, lemma_against_one, lemma_threshold_order, Binary64, INFINITY_BITS, NAN_BITS,
    NEG_INFINITY_BITS, NEG_ONE, ONE, ZERO,
};
use crate::li::eta::{neg_eta, neg_eta_spec};
use crate::li::zeta::{zeta, zeta_spec};
use vstd::arithmetic::power2::{lemma2_to64_rest, pow2};
use vstd::prelude::*;

verus! {

/// The bits of `0.75^2`: up to this squared modulus the power series
/// serves an order from 7 on.
pub const SERIES_RADIUS_SQR: u64 = 0x3fe2_0000_0000_0000;

/// The bits of `1.4 * 1.4` as binary64 arithmetic gives it: from this
/// squared modulus on the inversion formula serves an order from 7 on.
pub const INVERSION_RADIUS_SQR: u64 = 0x3fff_5c28_f5c2_8f5b;

/// How the complex polylogarithm of order `n` is evaluated, as far as the
/// order and the argument decide.
#[derive(Clone, Copy, Debug, PartialEq, Eq, Structural)]
pub enum ComplexPlan {
    /// The result is this value.
    Exact(ComplexBits),
    /// `n < -1`: `regime::negative_order` chooses the representation.
    NegativeOrder,
    /// `n == -1`: the closed form `z / (1 - z)^2`.
    MinusOne,
    /// `0 <= n <= 6`: the evaluator of that order.
    Fixed { order: i32 },
    /// `n >= 7`: `high_order` chooses the representation.
    HighOrder,
}

/// The representation of a polylogarithm of order 7 or more.
#[derive(Clone, Copy, Debug, PartialEq, Eq, Structural)]
pub enum HighOrder {
    /// `|z|^2 <= 0.75^2`: the power series in `z`.
    Series,
    /// `|z|^2 >= 1.4^2`: inversion. The result is the rest term plus
    /// `odd_sgn(n)` times the power series in `1/z`.
    Inversion,
    /// In between: the expansion in powers of `log(z)`.
    NearUnity,
}

/// The plan of the complex polylogarithm of order `n` at `z`.
pub open spec fn cli_plan(n: i32, z: ComplexBits) -> ComplexPlan {
    if z.nan() {
        ComplexPlan::Exact(complex(NAN_BITS, NAN_BITS))
    } else if z.infinite() {
        ComplexPlan::Exact(complex(NEG_INFINITY_BITS, ZERO))
    } else if z.zero() {
        ComplexPlan::Exact(z)
    } else if z.same_value_spec(complex(ONE, ZERO)) {
        if n <= 0 {
            ComplexPlan::Exact(complex(INFINITY_BITS, INFINITY_BITS))
        } else {
            ComplexPlan::Exact(ComplexBits { re: zeta_spec(n as int), im: b64(ZERO) })
        }
    } else if z.same_value_spec(complex(NEG_ONE, ZERO)) {
        ComplexPlan::Exact(ComplexBits { re: neg_eta_spec(n as int), im: b64(ZERO) })
    } else if n < -1 {
        ComplexPlan::NegativeOrder
    } else if n == -1 {
        ComplexPlan::MinusOne
    } else if n <= 6 {
        ComplexPlan::Fixed { order: n }
    } else {
        ComplexPlan::HighOrder
    }
}

/// The representation for the squared modulus `norm_sqr = |z|^2`.
pub open spec fn high_order_spec(norm_sqr: Binary64) -> HighOrder {
    if norm_sqr.le_spec(b64(SERIES_RADIUS_SQR)) {
        HighOrder::Series
    } else if b64(INVERSION_RADIUS_SQR).le_spec(norm_sqr) {
        HighOrder::Inversion
    } else {
        HighOrder::NearUnity
    }
}

/// The plan of the complex polylogarithm `Li_n(z)`.
///
/// Arguments that are not finite come first: a NaN part gives a NaN, an
/// infinite one gives `-infinity + 0i`. Then the known values, whatever the
/// order: a zero is its own polylogarithm, with the signs of both parts; at
/// 1 the result is `zeta(n)` for a positive order and infinite otherwise;
/// at -1 it is `-eta(n)`. Then the order decides.
pub fn cli(n: i32, z: ComplexBits) -> (plan: ComplexPlan)
    ensures
        plan == cli_plan(n, z),
        plan is Exact <==> !z.finite() || (z.im.zero() && (z.re.zero() || z.re.same_value_spec(
            b64(ONE),
        ) || z.re.same_value_spec(b64(NEG_ONE)))),
        plan == ComplexPlan::NegativeOrder ==> n < -1,
        plan == ComplexPlan::MinusOne ==> n == -1,
        plan matches ComplexPlan::Fixed { order } ==> order == n && 0 <= n <= 6,
        plan == ComplexPlan::HighOrder ==> n >= 7,
{
    proof {
        b64(ZERO).lemma_magnitude_order(z.im);
    }
    if z.is_nan() {
        ComplexPlan::Exact(complex(NAN_BITS, NAN_BITS))
    } else if z.is_infinite() {
        ComplexPlan::Exact(complex(NEG_INFINITY_BITS, ZERO))
    } else if z.is_zero() {
        ComplexPlan::Exact(z)
    } else if z.same_value(complex(ONE, ZERO)) {
        if n <= 0 {
            ComplexPlan::Exact(complex(INFINITY_BITS, INFINITY_BITS))
        } else {
            ComplexPlan::Exact(ComplexBits { re: zeta(n), im: b64(ZERO) })
        }
    } else if z.same_value(complex(NEG_ONE, ZERO)) {
        ComplexPlan::Exact(ComplexBits { re: neg_eta(n), im: b64(ZERO) })
    } else if n < -1 {
        ComplexPlan::NegativeOrder
    } else if n == -1 {
        ComplexPlan::MinusOne
    } else if n <= 6 {
        ComplexPlan::Fixed { order: n }
    } else {
        ComplexPlan::HighOrder
    }
}

/// The representation of a polylogarithm of order 7 or more, from the
/// squared modulus of the argument as computed. A squared modulus that has
/// overflowed to infinity takes the inversion, which works on `1/z`; by
/// `complex::lemma_squared_modulus_overflows` that is the case of every
/// argument with a part of magnitude `2^512` or more.
pub fn high_order(norm_sqr: Binary64) -> (r: HighOrder)
    ensures
        r == high_order_spec(norm_sqr),
        r == HighOrder::NearUnity <==> norm_sqr.nan() || (b64(SERIES_RADIUS_SQR).lt_spec(norm_sqr)
            && norm_sqr.lt_spec(b64(INVERSION_RADIUS_SQR))),
        norm_sqr == b64(INFINITY_BITS) ==> r == HighOrder::Inversion,
{
    proof {
        lemma_threshold_order();
        b64(SERIES_RADIUS_SQR).lemma_magnitude_order(b64(INVERSION_RADIUS_SQR));
        b64(INVERSION_RADIUS_SQR).lemma_magnitude_order(b64(INFINITY_BITS));
    }
    if norm_sqr.le(b64(SERIES_RADIUS_SQR)) {
        HighOrder::Series
    } else if b64(INVERSION_RADIUS_SQR).le(norm_sqr) {
        HighOrder::Inversion
    } else {
        HighOrder::NearUnity
    }
}

/// The radius of the power series squared is `(3/4)^2 = 9/16` exactly.
/// The radius of the inversion squared is `1.4 * 1.4` as rounded twice: it
/// lies below `(7/5)^2 = 49/25` by 29/25 of its unit in the last place.
pub proof fn lemma_radii()
    ensures
        16 * b64(SERIES_RADIUS_SQR).scaled() == 9 * pow2(1074),
        49 * pow2(1074) - 25 * b64(INVERSION_RADIUS_SQR).scaled() == 29 * b64(
            INVERSION_RADIUS_SQR,
        ).ulp(),
{
    lemma2_to64_rest();
    lemma_against_one(b64(SERIES_RADIUS_SQR), 0x12000000000000, 0x20000000000000);
    lemma_against_one(b64(INVERSION_RADIUS_SQR), 0x1f5c28f5c28f5b, 0x10000000000000);
}

} // verus!
