//! The real polylogarithm of any integer order.
use crate::ieee::{
    b64, lemma_against_one, lemma_threshold_order, Binary64, INFINITY_BITS, NAN_BITS, NEG_ONE,
    ONE, ZERO,
};
use crate::li::eta::{neg_eta, neg_eta_spec};
use crate::li::zeta::{zeta, zeta_spec};
use vstd::arithmetic::power2::{lemma2_to64_rest, pow2};
use vstd::prelude::*;

verus! {

/// The bits of 3/4: above it the expansion around 1 is faster than the
/// power series.
pub const THREE_QUARTERS: u64 = 0x3fe8_0000_0000_0000;

/// How the real polylogarithm of order `n` is evaluated, as far as the
/// order and the argument decide.
#[derive(Clone, Copy, Debug, PartialEq, Eq, Structural)]
pub enum RealPlan {
    /// The result is this value.
    Exact(Binary64),
    /// `n < -1`: `regime::negative_order` chooses the representation.
    NegativeOrder,
    /// `n == -1`: the closed form `x / (1 - x)^2`.
    MinusOne,
    /// `0 <= n <= 4`: the evaluator of that order.
    Fixed { order: i32 },
    /// `n >= 5` and `x < -1`: inversion. The result is the rest term for
    /// negative arguments plus `odd_sgn(n)` times the series at `1/x`.
    BelowMinusOne,
    /// `n >= 5` and `-1 < x < 1`: the series at `x`.
    Inside,
    /// `n >= 5` and `x > 1`: inversion. The result is the rest term for
    /// positive arguments plus `odd_sgn(n)` times the series at `1/x`.
    AboveOne,
}

/// The series for an order from 5 on at `y` in `(-1, 1)`.
#[derive(Clone, Copy, Debug, PartialEq, Eq, Structural)]
pub enum RealSeries {
    /// `n < 20` and `y > 3/4`: the expansion in powers of `ln(y)`.
    NearUnity,
    /// Otherwise: the power series in `y`.
    Power,
}

/// The logarithm that `|log x|^2` is made of.
#[derive(Clone, Copy, Debug, PartialEq, Eq, Structural)]
pub enum LogSquare {
    /// `x < 0`: `ln(-x)^2 + pi^2`.
    WithPhase,
    /// `x` is a zero: there is no logarithm, the result is a NaN.
    Undefined,
    /// `x > 0`, or `x` is a NaN: `ln(x)^2`.
    Plain,
}

/// The plan of the real polylogarithm of order `n` at `x`.
pub open spec fn rli_plan(n: i32, x: Binary64) -> RealPlan {
    if x.zero() {
        RealPlan::Exact(x)
    } else if x.same_value_spec(b64(ONE)) {
        if n <= 0 {
            RealPlan::Exact(b64(INFINITY_BITS))
        } else {
            RealPlan::Exact(zeta_spec(n as int))
        }
    } else if x.same_value_spec(b64(NEG_ONE)) {
        RealPlan::Exact(neg_eta_spec(n as int))
    } else if x.nan() {
        RealPlan::Exact(b64(NAN_BITS))
    } else if n < -1 {
        RealPlan::NegativeOrder
    } else if n == -1 {
        RealPlan::MinusOne
    } else if n <= 4 {
        RealPlan::Fixed { order: n }
    } else if x.lt_spec(b64(NEG_ONE)) {
        RealPlan::BelowMinusOne
    } else if x.lt_spec(b64(ONE)) {
        RealPlan::Inside
    } else {
        RealPlan::AboveOne
    }
}

/// The plan of the real polylogarithm `Li_n(x)`.
///
/// Known values come first, whatever the order: a zero is its own
/// polylogarithm, with its sign; at 1 the result is `zeta(n)` for a positive
/// order and positive infinity otherwise; at -1 it is `-eta(n)`; a NaN gives
/// a NaN. Then the order decides, and from order 5 on the side of -1 and 1
/// on which the argument lies.
pub fn rli(n: i32, x: Binary64) -> (plan: RealPlan)
    ensures
        plan == rli_plan(n, x),
        plan is Exact <==> x.zero() || x.nan() || x.same_value_spec(b64(ONE))
            || x.same_value_spec(b64(NEG_ONE)),
        plan == RealPlan::NegativeOrder ==> n < -1,
        plan == RealPlan::MinusOne ==> n == -1,
        plan matches RealPlan::Fixed { order } ==> order == n && 0 <= n <= 4,
        plan == RealPlan::BelowMinusOne <==> n >= 5 && x.lt_spec(b64(NEG_ONE)),
        plan == RealPlan::Inside <==> n >= 5 && b64(NEG_ONE).lt_spec(x) && x.lt_spec(b64(ONE))
            && !x.zero(),
        plan == RealPlan::AboveOne <==> n >= 5 && b64(ONE).lt_spec(x),
{
    proof {
        lemma_threshold_order();
        b64(ZERO).lemma_magnitude_order(x);
    }
    if x.is_zero() {
        RealPlan::Exact(x)
    } else if x.same_value(b64(ONE)) {
        if n <= 0 {
            RealPlan::Exact(b64(INFINITY_BITS))
        } else {
            RealPlan::Exact(zeta(n))
        }
    } else if x.same_value(b64(NEG_ONE)) {
        RealPlan::Exact(neg_eta(n))
    } else if x.is_nan() {
        RealPlan::Exact(b64(NAN_BITS))
    } else if n < -1 {
        RealPlan::NegativeOrder
    } else if n == -1 {
        RealPlan::MinusOne
    } else if n <= 4 {
        RealPlan::Fixed { order: n }
    } else if x.lt(b64(NEG_ONE)) {
        RealPlan::BelowMinusOne
    } else if x.lt(b64(ONE)) {
        RealPlan::Inside
    } else {
        RealPlan::AboveOne
    }
}

/// The series for the order `n >= 5` at `y`, the argument or its
/// reciprocal.
pub fn real_series(n: i32, y: Binary64) -> (s: RealSeries)
    ensures
        s == RealSeries::NearUnity <==> n < 20 && b64(THREE_QUARTERS).lt_spec(y),
{
    if n < 20 && b64(THREE_QUARTERS).lt(y) {
        RealSeries::NearUnity
    } else {
        RealSeries::Power
    }
}

/// The form of `|log x|^2` for a real `x`.
pub fn ln_sqr(x: Binary64) -> (form: LogSquare)
    ensures
        form == LogSquare::WithPhase <==> x.lt_spec(b64(ZERO)),
        form == LogSquare::Undefined <==> x.zero(),
{
    proof {
        b64(ZERO).lemma_magnitude_order(x);
    }
    if x.lt(b64(ZERO)) {
        LogSquare::WithPhase
    } else if x.is_zero() {
        LogSquare::Undefined
    } else {
        LogSquare::Plain
    }
}

/// The threshold of the expansion around 1 is 3/4 exactly.
pub proof fn lemma_three_quarters()
    ensures
        4 * b64(THREE_QUARTERS).scaled() == 3 * pow2(1074),
{
    lemma2_to64_rest();
    lemma_against_one(b64(THREE_QUARTERS), 0x18000000000000, 0x20000000000000);
}

} // verus!
