//! The polylogarithm of order 5 of a complex number.
use crate::complex::ComplexBits;
use crate::ieee::{b64, Binary64, NEG_ONE, ONE};
use vstd::prelude::*;

verus! {

/// The bits of `Li5(1) = zeta(5)`.
pub const LI5_AT_ONE: u64 = 0x3ff0_9741_8eca_7cce;

/// The bits of `Li5(-1) = -15/16 zeta(5)`.
pub const LI5_AT_MINUS_ONE: u64 = 0xbfef_1b9a_ebbb_aa02;

/// Provides the 5-th order polylogarithm function `li5()` of a number, as
/// a value of type `T`.
pub trait Li5<T> {
    fn li5(&self) -> T;
}

/// How a complex polylogarithm of order 5 or 6 is evaluated, as far as the
/// argument alone decides.
#[derive(Clone, Copy, Debug, PartialEq, Eq, Structural)]
pub enum SpecialPlan {
    /// The result is this value.
    Exact(ComplexBits),
    /// `near_unity::expansion` chooses the expansion.
    Expand,
}

impl ComplexBits {
    /// The plan of the complex `Li5` at this argument.
    pub open spec fn li5_plan(self) -> SpecialPlan {
        if self.zero() {
            SpecialPlan::Exact(self)
        } else if self.im.zero() && self.re.same_value_spec(b64(ONE)) {
            SpecialPlan::Exact(ComplexBits { re: b64(LI5_AT_ONE), im: self.im })
        } else if self.im.zero() && self.re.same_value_spec(b64(NEG_ONE)) {
            SpecialPlan::Exact(ComplexBits { re: b64(LI5_AT_MINUS_ONE), im: self.im })
        } else {
            SpecialPlan::Expand
        }
    }
}

impl Li5<SpecialPlan> for ComplexBits {
    /// A zero is its own polylogarithm, with the signs of both parts; at 1
    /// and at -1 the result is known and keeps the zero imaginary part of
    /// the argument.
    fn li5(&self) -> (plan: SpecialPlan)
        ensures
            plan == self.li5_plan(),
            plan == SpecialPlan::Expand <==> !(self.im.zero() && (self.re.zero()
                || self.re.same_value_spec(b64(ONE)) || self.re.same_value_spec(b64(NEG_ONE)))),
    {
        if self.is_zero() {
            SpecialPlan::Exact(*self)
        } else if self.im.is_zero() && self.re.same_value(b64(ONE)) {
            SpecialPlan::Exact(ComplexBits { re: b64(LI5_AT_ONE), im: self.im })
        } else if self.im.is_zero() && self.re.same_value(b64(NEG_ONE)) {
            SpecialPlan::Exact(ComplexBits { re: b64(LI5_AT_MINUS_ONE), im: self.im })
        } else {
            SpecialPlan::Expand
        }
    }
}

} // verus!
