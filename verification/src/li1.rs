//! The polylogarithm of order 1, `Li1(z) = -log(1 - z)`.
use crate::complex::ComplexBits;
use crate::ieee::{b64, Binary64, INFINITY_BITS, ONE};
use vstd::prelude::*;

verus! {

/// Provides the 1st order polylogarithm function `li1()` of a number, as a
/// value of type `T`.
pub trait Li1<T> {
    fn li1(&self) -> T;
}

/// How the real `Li1` is evaluated.
#[derive(Clone, Copy, Debug, PartialEq, Eq, Structural)]
pub enum Li1Real {
    /// The result is this value.
    Exact(Binary64),
    /// `x < 1` and `x` is not zero: the result is `-log1p(-x)`, which is
    /// accurate near 0.
    BelowOne,
    /// `x > 1`, or `x` is a NaN: the result is `-ln(x - 1)`, the real part
    /// of the logarithm on the cut.
    AboveOne,
}

/// How the complex `Li1` is evaluated.
#[derive(Clone, Copy, Debug, PartialEq, Eq, Structural)]
pub enum Li1Complex {
    /// The result is this value.
    Exact(ComplexBits),
    /// The result is `-cln(1 - z)`.
    NegLog,
}

impl Binary64 {
    /// The plan of the real `Li1` at this argument.
    pub open spec fn li1_plan(self) -> Li1Real {
        if self.zero() {
            Li1Real::Exact(self)
        } else if self.lt_spec(b64(ONE)) {
            Li1Real::BelowOne
        } else if self.same_value_spec(b64(ONE)) {
            Li1Real::Exact(b64(INFINITY_BITS))
        } else {
            Li1Real::AboveOne
        }
    }
}

impl ComplexBits {
    /// The plan of the complex `Li1` at this argument.
    pub open spec fn li1_plan(self) -> Li1Complex {
        if self.zero() {
            Li1Complex::Exact(self)
        } else {
            Li1Complex::NegLog
        }
    }
}

impl Li1<Li1Real> for Binary64 {
    /// A zero is its own polylogarithm, with its sign, and at 1 the result
    /// is positive infinity; elsewhere the side of 1 chooses the formula.
    fn li1(&self) -> (plan: Li1Real)
        ensures
            plan == self.li1_plan(),
            plan == Li1Real::BelowOne <==> self.lt_spec(b64(ONE)) && !self.zero(),
            plan == Li1Real::AboveOne <==> self.nan() || b64(ONE).lt_spec(*self),
    {
        if self.is_zero() {
            Li1Real::Exact(*self)
        } else if self.lt(b64(ONE)) {
            Li1Real::BelowOne
        } else if self.same_value(b64(ONE)) {
            Li1Real::Exact(b64(INFINITY_BITS))
        } else {
            Li1Real::AboveOne
        }
    }
}

impl Li1<Li1Complex> for ComplexBits {
    /// A zero is its own polylogarithm, with the signs of both parts;
    /// every other argument takes the logarithm.
    fn li1(&self) -> (plan: Li1Complex)
        ensures
            plan == self.li1_plan(),
    {
        if self.is_zero() {
            Li1Complex::Exact(*self)
        } else {
            Li1Complex::NegLog
        }
    }
}

} // verus!
