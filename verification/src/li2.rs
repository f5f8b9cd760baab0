//! The dilogarithm `Li2`.
//!
//! On the real line a rational approximation serves the interval
//! `[0, 1/2]`, and six functional equations carry every other argument into
//! it. Off the real line a series in `-log(1 - z)` serves the part of the
//! unit disk left of `Re z = 1/2`; inversion and reflection carry the rest
//! of the plane there.
use crate::axis::AxisPlan;
use crate::complex::ComplexBits;
use crate::ieee::{
    b64, lemma_threshold_order, Binary64, HALF, INFINITY_BITS, NEG_ONE, ONE, TWO, ZERO,
};
use vstd::arithmetic::power2::pow2;
use vstd::prelude::*;

verus! {

/// The bits of `Li2(1) = pi^2/6`.
pub const LI2_AT_ONE: u64 = 0x3ffa_51a6_6253_07d3;

/// The bits of `Li2(-1) = -pi^2/12`.
pub const LI2_AT_MINUS_ONE: u64 = 0xbfea_51a6_6253_07d3;

/// The bits of the machine epsilon `2^-52`.
pub const EPSILON: u64 = 0x3cb0_0000_0000_0000;

/// Provides the 2nd order polylogarithm (dilogarithm) function `li2()` of a
/// number, as a value of type `T`.
pub trait Li2<T> {
    fn li2(&self) -> T;
}

/// How the real dilogarithm is evaluated. `R` stands for the rational
/// approximation on `[0, 1/2]`.
#[derive(Clone, Copy, Debug, PartialEq, Eq, Structural)]
pub enum Li2Real {
    /// The result is this value.
    Exact(Binary64),
    /// `x < -1`: `R(1/(1 - x)) - pi^2/6 + ln(1 - x) (ln(1 - x)/2 - ln(-x))`.
    BelowMinusOne,
    /// `-1 < x < 0`: `-R(x/(x - 1)) - log1p(-x)^2/2`.
    MinusOneToZero,
    /// `0 < x < 1/2`: `R(x)`.
    ZeroToHalf,
    /// `1/2 <= x < 1`: `-R(1 - x) + pi^2/6 - ln(x) log1p(-x)`.
    HalfToOne,
    /// `1 < x < 2`: `R(1 - 1/x) + pi^2/6 - ln(x) (ln(1 - 1/x) + ln(x)/2)`.
    OneToTwo,
    /// `x >= 2`, or `x` is a NaN: `-R(1/x) + pi^2/3 - ln(x)^2/2`.
    FromTwo,
}

/// How the complex dilogarithm is evaluated off the real axis. `S` stands
/// for the series in `u = -cln(1 - w)`.
#[derive(Clone, Copy, Debug, PartialEq, Eq, Structural)]
pub enum Li2OffAxis {
    /// `|z|^2 < 2^-52`: the first two terms of the power series,
    /// `z (1 + z/4)`.
    Tiny,
    /// `Re z <= 1/2` and `|z|^2 <= 1`: `S` at `w = z`.
    Direct,
    /// `Re z > 1/2` and `|z|^2 <= 2 Re z`, that is `|z - 1| <= 1`, with a
    /// squared modulus that has not overflowed: reflection, with
    /// `u = -cln(z)`.
    Reflection,
    /// Everything else: inversion, `S` at `w = 1/z`.
    Inversion,
}

impl Binary64 {
    /// The plan of the real dilogarithm at this argument.
    pub open spec fn li2_plan(self) -> Li2Real {
        if self.lt_spec(b64(NEG_ONE)) {
            Li2Real::BelowMinusOne
        } else if self.same_value_spec(b64(NEG_ONE)) {
            Li2Real::Exact(b64(LI2_AT_MINUS_ONE))
        } else if self.lt_spec(b64(ZERO)) {
            Li2Real::MinusOneToZero
        } else if self.zero() {
            Li2Real::Exact(self)
        } else if self.lt_spec(b64(HALF)) {
            Li2Real::ZeroToHalf
        } else if self.lt_spec(b64(ONE)) {
            Li2Real::HalfToOne
        } else if self.same_value_spec(b64(ONE)) {
            Li2Real::Exact(b64(LI2_AT_ONE))
        } else if self.lt_spec(b64(TWO)) {
            Li2Real::OneToTwo
        } else {
            Li2Real::FromTwo
        }
    }
}

/// The plan off the real axis, for the real part `re` and the squared
/// modulus `norm_sqr`.
pub open spec fn li2_off_axis_spec(re: Binary64, norm_sqr: Binary64) -> Li2OffAxis {
    if norm_sqr.lt_spec(b64(EPSILON)) {
        Li2OffAxis::Tiny
    } else if re.le_spec(b64(HALF)) {
        if b64(ONE).lt_spec(norm_sqr) {
            Li2OffAxis::Inversion
        } else {
            Li2OffAxis::Direct
        }
    } else if norm_sqr.finite() && !re.nan() && norm_sqr.scaled() <= 2 * re.scaled() {
        Li2OffAxis::Reflection
    } else {
        Li2OffAxis::Inversion
    }
}

impl Li2<Li2Real> for Binary64 {
    /// The real line is cut at -1, 0, 1/2, 1 and 2. At -1, 0 and 1 the
    /// result is known: `-pi^2/12`, the zero itself, and `pi^2/6`.
    fn li2(&self) -> (plan: Li2Real)
        ensures
            plan == self.li2_plan(),
            plan == Li2Real::BelowMinusOne <==> self.lt_spec(b64(NEG_ONE)),
            plan == Li2Real::MinusOneToZero <==> b64(NEG_ONE).lt_spec(*self) && self.lt_spec(
                b64(ZERO),
            ),
            plan == Li2Real::ZeroToHalf <==> b64(ZERO).lt_spec(*self) && self.lt_spec(b64(HALF)),
            plan == Li2Real::HalfToOne <==> b64(HALF).le_spec(*self) && self.lt_spec(b64(ONE)),
            plan == Li2Real::OneToTwo <==> b64(ONE).lt_spec(*self) && self.lt_spec(b64(TWO)),
            plan == Li2Real::FromTwo <==> self.nan() || b64(TWO).le_spec(*self),
            plan is Exact <==> self.zero() || self.same_value_spec(b64(ONE))
                || self.same_value_spec(b64(NEG_ONE)),
    {
        proof {
            lemma_threshold_order();
            b64(ZERO).lemma_magnitude_order(*self);
        }
        if self.lt(b64(NEG_ONE)) {
            Li2Real::BelowMinusOne
        } else if self.same_value(b64(NEG_ONE)) {
            Li2Real::Exact(b64(LI2_AT_MINUS_ONE))
        } else if self.lt(b64(ZERO)) {
            Li2Real::MinusOneToZero
        } else if self.is_zero() {
            Li2Real::Exact(*self)
        } else if self.lt(b64(HALF)) {
            Li2Real::ZeroToHalf
        } else if self.lt(b64(ONE)) {
            Li2Real::HalfToOne
        } else if self.same_value(b64(ONE)) {
            Li2Real::Exact(b64(LI2_AT_ONE))
        } else if self.lt(b64(TWO)) {
            Li2Real::OneToTwo
        } else {
            Li2Real::FromTwo
        }
    }
}

impl Li2<AxisPlan> for ComplexBits {
    /// A zero is its own dilogarithm, with the signs of both parts. The
    /// rest of the real axis goes to the real dilogarithm, and above 1 the
    /// cut adds the imaginary part `-pi ln(re)`. Off the axis
    /// `li2_off_axis` chooses.
    fn li2(&self) -> (plan: AxisPlan)
        ensures
            plan == self.axis_plan(),
    {
        self.plan_by_axis()
    }
}

/// The plan of the complex dilogarithm off the real axis, from the real
/// part of the argument and its squared modulus `re^2 + im^2` as computed.
/// A squared modulus that has overflowed to infinity takes the inversion.
pub fn li2_off_axis(re: Binary64, norm_sqr: Binary64) -> (plan: Li2OffAxis)
    ensures
        plan == li2_off_axis_spec(re, norm_sqr),
        norm_sqr == b64(INFINITY_BITS) ==> plan == Li2OffAxis::Inversion,
{
    let twice_re = re.twice();
    proof {
        lemma_threshold_order();
        b64(ZERO).lemma_magnitude_order(re);
        norm_sqr.lemma_magnitude_order(b64(INFINITY_BITS));
        b64(EPSILON).lemma_magnitude_order(b64(INFINITY_BITS));
    }
    if norm_sqr.lt(b64(EPSILON)) {
        Li2OffAxis::Tiny
    } else if re.le(b64(HALF)) {
        if b64(ONE).lt(norm_sqr) {
            Li2OffAxis::Inversion
        } else {
            Li2OffAxis::Direct
        }
    } else if norm_sqr.is_finite() && norm_sqr.le(twice_re) {
        Li2OffAxis::Reflection
    } else {
        Li2OffAxis::Inversion
    }
}

/// The bound below which the power series is cut after two terms is
/// `2^-52`, the distance from 1 to the next binary64 number.
pub proof fn lemma_epsilon()
    ensures
        b64(EPSILON).scaled() == pow2(1022),
        b64(EPSILON).scaled() == b64(ONE).ulp(),
{
    crate::ieee::lemma_power_of_two(b64(EPSILON), 971);
}

} // verus!
