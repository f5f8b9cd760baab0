//! The first decision of the complex polylogarithms of orders 2 to 4: is the
//! argument zero, on the real axis, or off it?
use crate::complex::ComplexBits;
use crate::ieee::{b64, ONE};
use vstd::prelude::*;

verus! {

/// How a complex polylogarithm of order 2, 3 or 4 is evaluated, as far as the
/// argument alone decides.
#[derive(Clone, Copy, Debug, PartialEq, Eq, Structural)]
pub enum AxisPlan {
    /// The result is this value.
    Exact(ComplexBits),
    /// On the real axis up to 1: the real polylogarithm of the real part,
    /// with a zero imaginary part.
    RealAxis,
    /// On the real axis above 1, or with a NaN real part: the real
    /// polylogarithm of the real part, and the imaginary part that the cut
    /// gives, a multiple of a power of `ln(re)`.
    RealCut,
    /// Off the real axis: the squared modulus, or the modulus of the
    /// logarithm, chooses the expansion.
    OffAxis,
}

impl ComplexBits {
    /// The plan of a complex polylogarithm of order 2, 3 or 4 at this
    /// argument.
    pub open spec fn axis_plan(self) -> AxisPlan {
        if self.zero() {
            AxisPlan::Exact(self)
        } else if self.im.zero() {
            if self.re.le_spec(b64(ONE)) {
                AxisPlan::RealAxis
            } else {
                AxisPlan::RealCut
            }
        } else {
            AxisPlan::OffAxis
        }
    }

    /// The plan of a complex polylogarithm of order 2, 3 or 4 at this
    /// argument.
    pub fn plan_by_axis(&self) -> (plan: AxisPlan)
        ensures
            plan == self.axis_plan(),
            plan == AxisPlan::OffAxis <==> !self.im.zero(),
    {
        if self.is_zero() {
            AxisPlan::Exact(*self)
        } else if self.im.is_zero() {
            if self.re.le(b64(ONE)) {
                AxisPlan::RealAxis
            } else {
                AxisPlan::RealCut
            }
        } else {
            AxisPlan::OffAxis
        }
    }
}

} // verus!
