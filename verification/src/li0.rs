//! The polylogarithm of order 0, `Li0(z) = z / (1 - z)`.
use crate::complex::ComplexBits;
use crate::ieee::Binary64;
use vstd::prelude::*;

verus! {

/// Provides the 0-th order polylogarithm function `li0()` of a number, as a
/// value of type `T`.
pub trait Li0<T> {
    fn li0(&self) -> T;
}

/// How the real `Li0` is evaluated.
#[derive(Clone, Copy, Debug, PartialEq, Eq, Structural)]
pub enum Li0Real {
    /// The result is this value.
    Exact(Binary64),
    /// The result is the quotient `x / (1 - x)`; at 1 it is infinite.
    Quotient,
}

/// How the complex `Li0` is evaluated.
#[derive(Clone, Copy, Debug, PartialEq, Eq, Structural)]
pub enum Li0Complex {
    /// The result is this value.
    Exact(ComplexBits),
    /// The result is the quotient `z / (1 - z)`.
    Quotient,
}

impl Binary64 {
    /// The plan of the real `Li0` at this argument.
    pub open spec fn li0_plan(self) -> Li0Real {
        if self.zero() {
            Li0Real::Exact(self)
        } else {
            Li0Real::Quotient
        }
    }
}

impl ComplexBits {
    /// The plan of the complex `Li0` at this argument.
    pub open spec fn li0_plan(self) -> Li0Complex {
        if self.zero() {
            Li0Complex::Exact(self)
        } else {
            Li0Complex::Quotient
        }
    }
}

impl Li0<Li0Real> for Binary64 {
    /// A zero is its own polylogarithm, with its sign; every other
    /// argument takes the quotient.
    fn li0(&self) -> (plan: Li0Real)
        ensures
            plan == self.li0_plan(),
    {
        if self.is_zero() {
            Li0Real::Exact(*self)
        } else {
            Li0Real::Quotient
        }
    }
}

impl Li0<Li0Complex> for ComplexBits {
    /// A zero is its own polylogarithm, with the signs of both parts;
    /// every other argument takes the quotient.
    fn li0(&self) -> (plan: Li0Complex)
        ensures
            plan == self.li0_plan(),
    {
        if self.is_zero() {
            Li0Complex::Exact(*self)
        } else {
            Li0Complex::Quotient
        }
    }
}

} // verus!
