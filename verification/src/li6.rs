//! The polylogarithm of order 6 of a complex number.
use crate::complex::{complex, ComplexBits};
use crate::ieee::{b64, NEG_ONE, ONE, ZERO};
use crate::li5::SpecialPlan;
use vstd::prelude::*;

verus! {

/// The bits of `Li6(1) = zeta(6)`.
pub const LI6_AT_ONE: u64 = 0x3ff0_4709_84c0_9244;

/// The bits of `Li6(-1) = -31/32 zeta(6)`.
pub const LI6_AT_MINUS_ONE: u64 = 0xbfef_89a2_7135_1b64;

/// Provides the 6-th order polylogarithm function `li6()` of a number, as
/// a value of type `T`.
pub trait Li6<T> {
    fn li6(&self) -> T;
}

impl ComplexBits {
    /// The plan of the complex `Li6` at this argument.
    pub open spec fn li6_plan(self) -> SpecialPlan {
        if self.zero() {
            SpecialPlan::Exact(self)
        } else if self.im.zero() && self.re.same_value_spec(b64(ONE)) {
            SpecialPlan::Exact(complex(LI6_AT_ONE, ZERO))
        } else if self.im.zero() && self.re.same_value_spec(b64(NEG_ONE)) {
            SpecialPlan::Exact(complex(LI6_AT_MINUS_ONE, ZERO))
        } else {
            SpecialPlan::Expand
        }
    }
}

impl Li6<SpecialPlan> for ComplexBits {
    /// A zero is its own polylogarithm, with the signs of both parts; at 1
    /// and at -1 the result is known and real.
    fn li6(&self) -> (plan: SpecialPlan)
        ensures
            plan == self.li6_plan(),
            plan == SpecialPlan::Expand <==> !(self.im.zero() && (self.re.zero()
                || self.re.same_value_spec(b64(ONE)) || self.re.same_value_spec(b64(NEG_ONE)))),
    {
        if self.is_zero() {
            SpecialPlan::Exact(*self)
        } else if self.im.is_zero() && self.re.same_value(b64(ONE)) {
            SpecialPlan::Exact(complex(LI6_AT_ONE, ZERO))
        } else if self.im.is_zero() && self.re.same_value(b64(NEG_ONE)) {
            SpecialPlan::Exact(complex(LI6_AT_MINUS_ONE, ZERO))
        } else {
            SpecialPlan::Expand
        }
    }
}

} // verus!
