//! The trilogarithm `Li3`.
//!
//! On the real line two rational approximations serve `[-1, 0]` and
//! `[0, 1/2]`, and functional equations carry every other argument into
//! them. Off the real line the expansions of `near_unity` are used.
use crate::axis::AxisPlan;
use crate::complex::ComplexBits;
use crate::ieee::{b64, lemma_threshold_order, Binary64, HALF, NEG_ONE, ONE, TWO, ZERO};
use vstd::prelude::*;

verus! {

/// The bits of `Li3(1) = zeta(3)`.
pub const LI3_AT_ONE: u64 = 0x3ff3_3ba0_04f0_0621;

/// The bits of `Li3(-1) = -3/4 zeta(3)`.
pub const LI3_AT_MINUS_ONE: u64 = 0xbfec_d970_0768_0932;

/// The bits of `Li3(1/2) = 7/8 zeta(3) - pi^2 ln(2)/12 + ln(2)^3/6`.
pub const LI3_AT_HALF: u64 = 0x3fe1_30d9_b930_d708;

/// Provides the 3rd order polylogarithm (trilogarithm) function `li3()` of
/// a number, as a value of type `T`.
pub trait Li3<T> {
    fn li3(&self) -> T;
}

/// How the real trilogarithm is evaluated. `N` stands for the rational
/// approximation on `[-1, 0]` and `P` for the one on `[0, 1/2]`.
#[derive(Clone, Copy, Debug, PartialEq, Eq, Structural)]
pub enum Li3Real {
    /// The result is this value.
    Exact(Binary64),
    /// `x < -1`: inversion, `N(1/x)` and a polynomial in `ln(-x)`.
    BelowMinusOne,
    /// `-1 < x < 0`: `N(x)`.
    MinusOneToZero,
    /// `0 < x < 1/2`: `P(x)`.
    ZeroToHalf,
    /// `1/2 < x < 1`: `-N(1 - 1/x) - P(1 - x)` and a polynomial in `ln(x)`.
    HalfToOne,
    /// `1 < x < 2`: `-N(1 - x) - P(1 - 1/x)` and a polynomial in `ln(x)`.
    OneToTwo,
    /// `x >= 2`, or `x` is a NaN: inversion, `P(1/x)` and a polynomial in
    /// `ln(x)`.
    FromTwo,
}

impl Binary64 {
    /// The plan of the real trilogarithm at this argument.
    pub open spec fn li3_plan(self) -> Li3Real {
        if self.lt_spec(b64(NEG_ONE)) {
            Li3Real::BelowMinusOne
        } else if self.same_value_spec(b64(NEG_ONE)) {
            Li3Real::Exact(b64(LI3_AT_MINUS_ONE))
        } else if self.lt_spec(b64(ZERO)) {
            Li3Real::MinusOneToZero
        } else if self.zero() {
            Li3Real::Exact(self)
        } else if self.lt_spec(b64(HALF)) {
            Li3Real::ZeroToHalf
        } else if self.same_value_spec(b64(HALF)) {
            Li3Real::Exact(b64(LI3_AT_HALF))
        } else if self.lt_spec(b64(ONE)) {
            Li3Real::HalfToOne
        } else if self.same_value_spec(b64(ONE)) {
            Li3Real::Exact(b64(LI3_AT_ONE))
        } else if self.lt_spec(b64(TWO)) {
            Li3Real::OneToTwo
        } else {
            Li3Real::FromTwo
        }
    }
}

impl Li3<Li3Real> for Binary64 {
    /// The real line is cut at -1, 0, 1/2, 1 and 2, and at each of the
    /// first four the result is known.
    fn li3(&self) -> (plan: Li3Real)
        ensures
            plan == self.li3_plan(),
            plan == Li3Real::BelowMinusOne <==> self.lt_spec(b64(NEG_ONE)),
            plan == Li3Real::MinusOneToZero <==> b64(NEG_ONE).lt_spec(*self) && self.lt_spec(
                b64(ZERO),
            ),
            plan == Li3Real::ZeroToHalf <==> b64(ZERO).lt_spec(*self) && self.lt_spec(b64(HALF)),
            plan == Li3Real::HalfToOne <==> b64(HALF).lt_spec(*self) && self.lt_spec(b64(ONE)),
            plan == Li3Real::OneToTwo <==> b64(ONE).lt_spec(*self) && self.lt_spec(b64(TWO)),
            plan == Li3Real::FromTwo <==> self.nan() || b64(TWO).le_spec(*self),
    {
        proof {
            lemma_threshold_order();
            b64(ZERO).lemma_magnitude_order(*self);
        }
        if self.lt(b64(NEG_ONE)) {
            Li3Real::BelowMinusOne
        } else if self.same_value(b64(NEG_ONE)) {
            Li3Real::Exact(b64(LI3_AT_MINUS_ONE))
        } else if self.lt(b64(ZERO)) {
            Li3Real::MinusOneToZero
        } else if self.is_zero() {
            Li3Real::Exact(*self)
        } else if self.lt(b64(HALF)) {
            Li3Real::ZeroToHalf
        } else if self.same_value(b64(HALF)) {
            Li3Real::Exact(b64(LI3_AT_HALF))
        } else if self.lt(b64(ONE)) {
            Li3Real::HalfToOne
        } else if self.same_value(b64(ONE)) {
            Li3Real::Exact(b64(LI3_AT_ONE))
        } else if self.lt(b64(TWO)) {
            Li3Real::OneToTwo
        } else {
            Li3Real::FromTwo
        }
    }
}

impl Li3<AxisPlan> for ComplexBits {
    /// A zero is its own trilogarithm, with the signs of both parts. The
    /// rest of the real axis goes to the real trilogarithm, and above 1 the
    /// cut adds the imaginary part `-pi ln(re)^2 / 2`.
    fn li3(&self) -> (plan: AxisPlan)
        ensures
            plan == self.axis_plan(),
    {
        self.plan_by_axis()
    }
}

} // verus!
