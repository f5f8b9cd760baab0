//! The polylogarithm of order 4.
//!
//! On the real line inversion carries the argument into `[-1, 1]`, where
//! three rational approximations and a series in `ln(x)` share the
//! interval. Off the real line the expansions of `near_unity` are used.
use crate::axis::AxisPlan;
use crate::complex::ComplexBits;
use crate::ieee::{
    b64, lemma_against_one, lemma_threshold_order, Binary64, HALF, NEG_ONE, ONE, ZERO,
};
use vstd::arithmetic::power2::{lemma2_to64_rest, pow2};
use vstd::prelude::*;

verus! {

/// The bits of `Li4(1) = zeta(4) = pi^4/90`.
pub const LI4_AT_ONE: u64 = 0x3ff1_5132_2ac7_d848;

/// The bits of `Li4(-1) = -7/8 zeta(4)`.
pub const LI4_AT_MINUS_ONE: u64 = 0xbfee_4e17_cadd_ba7e;

/// The bits of the binary64 number nearest to 4/5.
pub const FOUR_FIFTHS: u64 = 0x3fe9_9999_9999_999a;

/// Provides the 4-th order polylogarithm function `li4()` of a number, as
/// a value of type `T`.
pub trait Li4<T> {
    fn li4(&self) -> T;
}

/// How the real `Li4` is evaluated. `A(y)` stands for the approximation
/// that `li4_approximant` chooses for `y` in `[-1, 1]`.
#[derive(Clone, Copy, Debug, PartialEq, Eq, Structural)]
pub enum Li4Real {
    /// The result is this value.
    Exact(Binary64),
    /// `x < -1`: `-A(1/x)` and a polynomial in `ln(-x)^2`.
    BelowMinusOne,
    /// `-1 < x < 1` and `x` is not zero: `A(x)`.
    Inside,
    /// `x > 1`, or `x` is a NaN: `-A(1/x)` and a polynomial in `ln(x)^2`.
    AboveOne,
}

/// The approximation of `Li4` on a part of `[-1, 1]`.
#[derive(Clone, Copy, Debug, PartialEq, Eq, Structural)]
pub enum Li4Approximant {
    /// `y < 0`: the rational approximation on `[-1, 0]`.
    Negative,
    /// `0 <= y < 1/2`: the rational approximation on `[0, 1/2]`.
    Half,
    /// `1/2 <= y < 4/5`: the rational approximation on `[1/2, 4/5]`.
    Mid,
    /// `y >= 4/5`, or `y` is a NaN: the series in `ln(y)` around 1.
    One,
}

impl Binary64 {
    /// The plan of the real `Li4` at this argument.
    pub open spec fn li4_plan(self) -> Li4Real {
        if self.lt_spec(b64(NEG_ONE)) {
            Li4Real::BelowMinusOne
        } else if self.same_value_spec(b64(NEG_ONE)) {
            Li4Real::Exact(b64(LI4_AT_MINUS_ONE))
        } else if self.zero() {
            Li4Real::Exact(self)
        } else if self.lt_spec(b64(ONE)) {
            Li4Real::Inside
        } else if self.same_value_spec(b64(ONE)) {
            Li4Real::Exact(b64(LI4_AT_ONE))
        } else {
            Li4Real::AboveOne
        }
    }

    /// The approximation of `Li4` at this number, which is meant to lie in
    /// `[-1, 1]`.
    pub open spec fn li4_approximant_spec(self) -> Li4Approximant {
        if self.lt_spec(b64(ZERO)) {
            Li4Approximant::Negative
        } else if self.lt_spec(b64(HALF)) {
            Li4Approximant::Half
        } else if self.lt_spec(b64(FOUR_FIFTHS)) {
            Li4Approximant::Mid
        } else {
            Li4Approximant::One
        }
    }
}

impl Li4<Li4Real> for Binary64 {
    /// The real line is cut at -1 and 1, where the result is known, as it
    /// is at zero.
    fn li4(&self) -> (plan: Li4Real)
        ensures
            plan == self.li4_plan(),
            plan == Li4Real::BelowMinusOne <==> self.lt_spec(b64(NEG_ONE)),
            plan == Li4Real::Inside <==> b64(NEG_ONE).lt_spec(*self) && self.lt_spec(b64(ONE))
                && !self.zero(),
            plan == Li4Real::AboveOne <==> self.nan() || b64(ONE).lt_spec(*self),
    {
        proof {
            lemma_threshold_order();
            b64(ZERO).lemma_magnitude_order(*self);
        }
        if self.lt(b64(NEG_ONE)) {
            Li4Real::BelowMinusOne
        } else if self.same_value(b64(NEG_ONE)) {
            Li4Real::Exact(b64(LI4_AT_MINUS_ONE))
        } else if self.is_zero() {
            Li4Real::Exact(*self)
        } else if self.lt(b64(ONE)) {
            Li4Real::Inside
        } else if self.same_value(b64(ONE)) {
            Li4Real::Exact(b64(LI4_AT_ONE))
        } else {
            Li4Real::AboveOne
        }
    }
}

/// The approximation of `Li4` for `y`, the argument or its reciprocal.
pub fn li4_approximant(y: Binary64) -> (a: Li4Approximant)
    ensures
        a == y.li4_approximant_spec(),
        a == Li4Approximant::Half <==> b64(ZERO).le_spec(y) && y.lt_spec(b64(HALF)),
        a == Li4Approximant::Mid <==> b64(HALF).le_spec(y) && y.lt_spec(b64(FOUR_FIFTHS)),
        a == Li4Approximant::One <==> y.nan() || b64(FOUR_FIFTHS).le_spec(y),
{
    proof {
        lemma_threshold_order();
        b64(HALF).lemma_magnitude_order(b64(FOUR_FIFTHS));
    }
    if y.lt(b64(ZERO)) {
        Li4Approximant::Negative
    } else if y.lt(b64(HALF)) {
        Li4Approximant::Half
    } else if y.lt(b64(FOUR_FIFTHS)) {
        Li4Approximant::Mid
    } else {
        Li4Approximant::One
    }
}

impl Li4<AxisPlan> for ComplexBits {
    /// A zero is its own polylogarithm, with the signs of both parts. The
    /// rest of the real axis goes to the real `Li4`, and above 1 the cut
    /// adds the imaginary part `-pi ln(re)^3 / 6`.
    fn li4(&self) -> (plan: AxisPlan)
        ensures
            plan == self.axis_plan(),
    {
        self.plan_by_axis()
    }
}

/// The threshold between the last two approximations is the binary64
/// number nearest to 4/5: it lies above 4/5 by two fifths of its unit in the
/// last place.
pub proof fn lemma_four_fifths()
    ensures
        5 * b64(FOUR_FIFTHS).scaled() - 4 * pow2(1074) == 2 * b64(FOUR_FIFTHS).ulp(),
{
    lemma2_to64_rest();
    lemma_against_one(b64(FOUR_FIFTHS), 0x1999999999999a, 0x20000000000000);
}

} // verus!
