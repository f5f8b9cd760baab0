//! The rule by which every series of this library ends.
//!
//! No series runs for a fixed number of terms. A term is added to the sum,
//! and the series ends when the sum has not changed by it: the later terms
//! are smaller still. A term that is not finite is not added, and ends the
//! series with the sum as it was.
use crate::complex::ComplexBits;
use crate::ieee::Binary64;
use vstd::prelude::*;

verus! {

/// What to do after a term of a real series.
#[derive(Clone, Copy, Debug, PartialEq, Eq, Structural)]
pub enum RealStep {
    /// The series has ended with this sum.
    Stop(Binary64),
    /// The new sum stands, and the next term is due.
    Continue,
}

/// What to do after a term of a complex series.
#[derive(Clone, Copy, Debug, PartialEq, Eq, Structural)]
pub enum ComplexStep {
    /// The series has ended with this sum.
    Stop(ComplexBits),
    /// The new sum stands, and the next term is due.
    Continue,
}

/// The step after `term`, for the sum before it and the sum with it.
pub open spec fn real_step_spec(old_sum: Binary64, term: Binary64, new_sum: Binary64)
    -> RealStep {
    if !term.finite() {
        RealStep::Stop(old_sum)
    } else if new_sum.same_value_spec(old_sum) {
        RealStep::Stop(new_sum)
    } else {
        RealStep::Continue
    }
}

/// The step after `term`, for the sum before it and the sum with it.
pub open spec fn complex_step_spec(old_sum: ComplexBits, term: ComplexBits, new_sum: ComplexBits)
    -> ComplexStep {
    if !term.finite() {
        ComplexStep::Stop(old_sum)
    } else if new_sum.same_value_spec(old_sum) {
        ComplexStep::Stop(new_sum)
    } else {
        ComplexStep::Continue
    }
}

/// The step after a term of a real series. `new_sum` is `old_sum + term`
/// as computed.
pub fn real_step(old_sum: Binary64, term: Binary64, new_sum: Binary64) -> (step: RealStep)
    ensures
        step == real_step_spec(old_sum, term, new_sum),
        step == RealStep::Continue <==> term.finite() && !new_sum.same_value_spec(old_sum),
{
    if !term.is_finite() {
        RealStep::Stop(old_sum)
    } else if new_sum.same_value(old_sum) {
        RealStep::Stop(new_sum)
    } else {
        RealStep::Continue
    }
}

/// The step after a term of a complex series. `new_sum` is
/// `old_sum + term` as computed.
pub fn complex_step(old_sum: ComplexBits, term: ComplexBits, new_sum: ComplexBits) -> (step:
    ComplexStep)
    ensures
        step == complex_step_spec(old_sum, term, new_sum),
        step == ComplexStep::Continue <==> term.finite() && !new_sum.same_value_spec(old_sum),
{
    if !term.is_finite() {
        ComplexStep::Stop(old_sum)
    } else if new_sum.same_value(old_sum) {
        ComplexStep::Stop(new_sum)
    } else {
        ComplexStep::Continue
    }
}

/// A series ends with a finite sum once it has one: a term that
/// overflows or is a NaN never reaches the sum.
pub proof fn lemma_stop_keeps_finite_sum(old_sum: Binary64, term: Binary64, new_sum: Binary64)
    requires
        old_sum.finite(),
        !term.finite(),
    ensures
        real_step_spec(old_sum, term, new_sum) == RealStep::Stop(old_sum),
{
}

/// A sum that has become a NaN never settles by comparison: only a term
/// that is not finite ends such a series.
pub proof fn lemma_nan_sum_never_settles(old_sum: Binary64, term: Binary64, new_sum: Binary64)
    requires
        new_sum.nan() || old_sum.nan(),
        term.finite(),
    ensures
        real_step_spec(old_sum, term, new_sum) == RealStep::Continue,
{
}

} // verus!
