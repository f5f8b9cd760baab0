//! The branch of the complex logarithm whose imaginary part lies in
//! `(-pi, pi]`.
//!
//! The principal logarithm of IEEE 754 arithmetic gives a negative real
//! number the imaginary part `-pi` when its imaginary part is the negative
//! zero. Series in `log(-z)` must not jump there, so on the real axis the
//! logarithm is taken of the real part alone, whatever the sign of the zero.
use crate::complex::ComplexBits;
use crate::ieee::{b64, Binary64, ONE, SIGN_BIT, ZERO};
use vstd::prelude::*;

verus! {

/// Provides the logarithm `cln()` of a number, as a value of type `T`.
pub trait CLn<T> {
    fn cln(&self) -> T;
}

/// How the logarithm of a complex number is to be taken.
#[derive(Clone, Copy, Debug, PartialEq, Eq, Structural)]
pub enum LogBranch {
    /// On the positive real axis: `(ln(re), 0)`.
    PositiveReal,
    /// On the negative real axis, whatever the sign of the zero imaginary
    /// part: `(ln(-re), pi)`.
    NegativeReal,
    /// Anywhere else, a NaN included: the principal logarithm.
    Principal,
}

/// How `log(1 + z)` is to be taken once the sum `1 + z` is known.
#[derive(Clone, Copy, Debug, PartialEq, Eq, Structural)]
pub enum Log1pBranch {
    /// The sum is 1 to the last bit: `z` itself is the logarithm.
    Argument,
    /// Otherwise: `cln(1 + z) * z / ((1 + z) - 1)`, which cancels the
    /// rounding error of the sum.
    Corrected,
}

impl ComplexBits {
    /// The branch that `cln` takes at this number.
    pub open spec fn log_branch(self) -> LogBranch {
        if self.im.zero() && b64(ZERO).lt_spec(self.re) {
            LogBranch::PositiveReal
        } else if self.im.zero() && self.re.lt_spec(b64(ZERO)) {
            LogBranch::NegativeReal
        } else {
            LogBranch::Principal
        }
    }

    /// This number with the sign of its imaginary part flipped.
    pub open spec fn conj(self) -> ComplexBits {
        ComplexBits {
            re: self.re,
            im: Binary64 {
                bits: if self.im.bits >= SIGN_BIT {
                    (self.im.bits - SIGN_BIT) as u64
                } else {
                    (self.im.bits + SIGN_BIT) as u64
                },
            },
        }
    }
}

impl CLn<LogBranch> for ComplexBits {
    /// The branch of the logarithm at this number.
    fn cln(&self) -> (branch: LogBranch)
        ensures
            branch == self.log_branch(),
            branch == LogBranch::PositiveReal <==> self.im.zero() && !self.re.nan()
                && self.re.scaled() > 0,
            branch == LogBranch::NegativeReal <==> self.im.zero() && !self.re.nan()
                && self.re.scaled() < 0,
    {
        proof {
            b64(ZERO).lemma_magnitude_order(self.re);
        }
        if self.im.is_zero() && b64(ZERO).lt(self.re) {
            LogBranch::PositiveReal
        } else if self.im.is_zero() && self.re.lt(b64(ZERO)) {
            LogBranch::NegativeReal
        } else {
            LogBranch::Principal
        }
    }
}

/// The branch of `log(1 + z)`, given the sum `1 + z` as computed.
pub fn cln_1p(sum: ComplexBits) -> (branch: Log1pBranch)
    ensures
        branch == Log1pBranch::Argument <==> sum.re.same_value_spec(b64(ONE)) && sum.im.zero(),
{
    if sum.re.same_value(b64(ONE)) && sum.im.is_zero() {
        Log1pBranch::Argument
    } else {
        Log1pBranch::Corrected
    }
}

/// On the real axis the branch does not depend on the sign of the zero
/// imaginary part: a number and its conjugate are treated alike.
pub proof fn lemma_branch_ignores_sign_of_zero(z: ComplexBits)
    requires
        z.on_real_axis(),
    ensures
        z.conj().on_real_axis(),
        z.conj().log_branch() == z.log_branch(),
{
}

/// The principal branch is taken on the real axis only at zero and at a
/// NaN: every other real number gets its logarithm from its real part.
pub proof fn lemma_real_axis_avoids_principal(z: ComplexBits)
    requires
        z.on_real_axis(),
    ensures
        z.log_branch() == LogBranch::Principal <==> z.re.zero() || z.re.nan(),
{
    b64(ZERO).lemma_magnitude_order(z.re);
}

} // verus!
