//! The polylogarithm of any integer order.
pub mod accuracy;
pub mod cli;
pub mod eta;
pub mod fac;
pub mod gamma;
pub mod harmonic;
pub mod regime;
pub mod relation;
pub mod rest;
pub mod rli;
pub mod zeta;

use crate::axis::AxisPlan;
use crate::complex::{complex, ComplexBits};
use crate::ieee::{b64, lemma_threshold_order, Binary64, INFINITY_BITS, NEG_ONE, ONE, ZERO};
use crate::li0::{Li0Complex, Li0Real};
use crate::li1::{Li1Complex, Li1Real};
use crate::li2::{Li2Real, LI2_AT_MINUS_ONE, LI2_AT_ONE};
use crate::li3::{Li3Real, LI3_AT_MINUS_ONE, LI3_AT_ONE};
use crate::li4::{Li4Real, LI4_AT_MINUS_ONE, LI4_AT_ONE};
use crate::li5::{SpecialPlan, LI5_AT_MINUS_ONE, LI5_AT_ONE};
use crate::li6::LI6_AT_ONE;
use crate::li::cli::{cli_plan, ComplexPlan};
use crate::li::eta::neg_eta_spec;
use crate::li::rli::{rli_plan, RealPlan};
use crate::li::zeta::zeta_spec;
use vstd::prelude::*;

verus! {

/// Provides the n-th order polylogarithm function `li()` of a number, as a
/// value of type `T`.
pub trait Li<T> {
    fn li(&self, n: i32) -> T;
}

impl Li<RealPlan> for Binary64 {
    /// The plan of the real polylogarithm of order `n` at this number.
    fn li(&self, n: i32) -> (plan: RealPlan)
        ensures
            plan == rli_plan(n, *self),
    {
        rli::rli(n, *self)
    }
}

impl Li<ComplexPlan> for ComplexBits {
    /// The plan of the complex polylogarithm of order `n` at this number.
    fn li(&self, n: i32) -> (plan: ComplexPlan)
        ensures
            plan == cli_plan(n, *self),
    {
        cli::cli(n, *self)
    }
}

/// A real zero is its own polylogarithm at every order, and keeps its
/// sign: the general engine and each evaluator of a fixed order return the
/// argument itself.
pub proof fn lemma_real_zero_is_kept(n: i32, x: Binary64)
    requires
        x.zero(),
    ensures
        rli_plan(n, x) == RealPlan::Exact(x),
        x.li0_plan() == Li0Real::Exact(x),
        x.li1_plan() == Li1Real::Exact(x),
        x.li2_plan() == Li2Real::Exact(x),
        x.li3_plan() == Li3Real::Exact(x),
        x.li4_plan() == Li4Real::Exact(x),
{
    lemma_threshold_order();
    b64(ZERO).lemma_magnitude_order(x);
}

/// A complex zero is its own polylogarithm at every order, and both parts
/// keep their signs, in each of the four combinations.
pub proof fn lemma_complex_zero_is_kept(n: i32, z: ComplexBits)
    requires
        z.zero(),
    ensures
        cli_plan(n, z) == ComplexPlan::Exact(z),
        z.li0_plan() == Li0Complex::Exact(z),
        z.li1_plan() == Li1Complex::Exact(z),
        z.axis_plan() == AxisPlan::Exact(z),
        z.li5_plan() == SpecialPlan::Exact(z),
        z.li6_plan() == SpecialPlan::Exact(z),
{
}

/// At 1 the polylogarithm of a positive order is `zeta(n)`; of any other
/// order it is infinite. On the complex side the sign of the zero imaginary
/// part of the argument plays no part.
pub proof fn lemma_value_at_one(n: i32, im: Binary64)
    requires
        im.zero(),
    ensures
        n >= 1 ==> rli_plan(n, b64(ONE)) == RealPlan::Exact(zeta_spec(n as int)),
        n >= 1 ==> cli_plan(n, ComplexBits { re: b64(ONE), im }) == ComplexPlan::Exact(
            ComplexBits { re: zeta_spec(n as int), im: b64(ZERO) },
        ),
        n <= 0 ==> rli_plan(n, b64(ONE)) == RealPlan::Exact(b64(INFINITY_BITS)),
        n <= 0 ==> cli_plan(n, ComplexBits { re: b64(ONE), im }) == ComplexPlan::Exact(
            complex(INFINITY_BITS, INFINITY_BITS),
        ),
{
    lemma_threshold_order();
}

/// At -1 the polylogarithm of every order is `-eta(n)`. On the complex
/// side the sign of the zero imaginary part of the argument plays no part.
pub proof fn lemma_value_at_minus_one(n: i32, im: Binary64)
    requires
        im.zero(),
    ensures
        rli_plan(n, b64(NEG_ONE)) == RealPlan::Exact(neg_eta_spec(n as int)),
        cli_plan(n, ComplexBits { re: b64(NEG_ONE), im }) == ComplexPlan::Exact(
            ComplexBits { re: neg_eta_spec(n as int), im: b64(ZERO) },
        ),
{
    lemma_threshold_order();
}

/// The values that the evaluators of a fixed order hold for the arguments
/// 1 and -1 are those of the tables of zeta and eta: for the orders 2 to 6
/// at 1, and for the orders 2 to 5 at -1.
pub proof fn lemma_fixed_orders_agree()
    ensures
        b64(LI2_AT_ONE) == zeta_spec(2),
        b64(LI3_AT_ONE) == zeta_spec(3),
        b64(LI4_AT_ONE) == zeta_spec(4),
        b64(LI5_AT_ONE) == zeta_spec(5),
        b64(LI6_AT_ONE) == zeta_spec(6),
        b64(LI2_AT_MINUS_ONE) == neg_eta_spec(2),
        b64(LI3_AT_MINUS_ONE) == neg_eta_spec(3),
        b64(LI4_AT_MINUS_ONE) == neg_eta_spec(4),
        b64(LI5_AT_MINUS_ONE) == neg_eta_spec(5),
{
}

} // verus!
