//! Complex numbers whose parts are binary64 numbers given by their bits.
use crate::ieee::{b64, lemma_threshold_values, Binary64, INFINITY_BITS};
use vstd::arithmetic::power2::{lemma_pow2_adds, pow2};
use vstd::prelude::*;

verus! {

/// A complex number, by the bits of its real and imaginary parts.
#[derive(Clone, Copy, Debug, PartialEq, Eq, Structural)]
pub struct ComplexBits {
    pub re: Binary64,
    pub im: Binary64,
}

/// The complex number whose parts have the given bits.
pub open spec fn complex_spec(re: u64, im: u64) -> ComplexBits {
    ComplexBits { re: b64(re), im: b64(im) }
}

/// The complex number whose parts have the given bits.
#[verifier::when_used_as_spec(complex_spec)]
pub fn complex(re: u64, im: u64) -> (z: ComplexBits)
    ensures
        z == complex_spec(re, im),
{
    ComplexBits { re: b64(re), im: b64(im) }
}

impl ComplexBits {
    /// A part is a NaN.
    pub open spec fn nan(self) -> bool {
        self.re.nan() || self.im.nan()
    }

    /// No part is a NaN and a part is infinite.
    pub open spec fn infinite(self) -> bool {
        !self.nan() && (self.re.infinite() || self.im.infinite())
    }

    /// Both parts are finite.
    pub open spec fn finite(self) -> bool {
        self.re.finite() && self.im.finite()
    }

    /// Both parts are zeros, of either sign.
    pub open spec fn zero(self) -> bool {
        self.re.zero() && self.im.zero()
    }

    /// The imaginary part is a zero, of either sign.
    pub open spec fn on_real_axis(self) -> bool {
        self.im.zero()
    }

    /// The exact squared modulus `re^2 + im^2` of a number without a NaN
    /// part, in units of 2^-2148.
    pub open spec fn norm_sqr_scaled(self) -> int {
        self.re.scaled() * self.re.scaled() + self.im.scaled() * self.im.scaled()
    }

    /// The parts are equal as IEEE 754 compares them.
    pub open spec fn same_value_spec(self, other: ComplexBits) -> bool {
        self.re.same_value_spec(other.re) && self.im.same_value_spec(other.im)
    }

    /// Whether a part is a NaN.
    #[verifier::when_used_as_spec(nan)]
    pub fn is_nan(self) -> (r: bool)
        ensures
            r == self.nan(),
    {
        self.re.is_nan() || self.im.is_nan()
    }

    /// Whether no part is a NaN and a part is infinite.
    #[verifier::when_used_as_spec(infinite)]
    pub fn is_infinite(self) -> (r: bool)
        ensures
            r == self.infinite(),
    {
        !self.is_nan() && (self.re.is_infinite() || self.im.is_infinite())
    }

    /// Whether both parts are finite.
    #[verifier::when_used_as_spec(finite)]
    pub fn is_finite(self) -> (r: bool)
        ensures
            r == self.finite(),
    {
        self.re.is_finite() && self.im.is_finite()
    }

    /// Whether both parts are zeros, of either sign.
    #[verifier::when_used_as_spec(zero)]
    pub fn is_zero(self) -> (r: bool)
        ensures
            r == self.zero(),
    {
        self.re.is_zero() && self.im.is_zero()
    }

    /// Whether the imaginary part is a zero, of either sign.
    #[verifier::when_used_as_spec(on_real_axis)]
    pub fn is_on_real_axis(self) -> (r: bool)
        ensures
            r == self.on_real_axis(),
    {
        self.im.is_zero()
    }

    /// Equality of both parts as IEEE 754 compares them.
    #[verifier::when_used_as_spec(same_value_spec)]
    pub fn same_value(self, other: ComplexBits) -> (r: bool)
        ensures
            r == self.same_value_spec(other),
    {
        self.re.same_value(other.re) && self.im.same_value(other.im)
    }
}

/// A number with a part of magnitude `2^512` or more has a squared modulus
/// of `2^1024` or more, which is beyond every finite binary64 number: its
/// squared modulus overflows however it is rounded. Arguments around
/// `10^300` are of this kind.
pub proof fn lemma_squared_modulus_overflows(z: ComplexBits)
    requires
        z.re.magnitude() >= pow2(1586) || z.im.magnitude() >= pow2(1586),
    ensures
        z.norm_sqr_scaled() >= pow2(1074) * b64(INFINITY_BITS).magnitude(),
{
    let re = z.re.scaled();
    let im = z.im.scaled();
    let large = pow2(1586) as int;
    lemma_threshold_values();
    lemma_pow2_adds(1586, 1586);
    lemma_pow2_adds(1074, 2098);
    assert(b64(INFINITY_BITS).magnitude() == pow2(2098));
    assert(re * re + im * im >= large * large) by (nonlinear_arith)
        requires
            re >= large || re <= -large || im >= large || im <= -large,
            large >= 0,
    ;
}

} // verus!
