//! The choice among the three expansions that the complex polylogarithms of
//! orders 3 to 6 share off the real axis.
//!
//! Near the branch point `z = 1` a series in powers of `log(z)` converges
//! fast. Elsewhere in the closed unit disk a series in `-log(1 - z)` is
//! used, and outside the disk the inversion formula carries `z` to `1/z`.
use crate::ieee::{b64, lemma_threshold_order, Binary64, INFINITY_BITS, ONE, ZERO};
use vstd::prelude::*;

verus! {

/// The expansion to use off the real axis.
#[derive(Clone, Copy, Debug, PartialEq, Eq, Structural)]
pub enum Expansion {
    /// `|log z|^2 < 1`: the series in powers of `log(z)`.
    NearUnity,
    /// Not near unity and `|z| <= 1`: the series in `-cln(1 - z)`.
    UnitDisk,
    /// Everything else: the series in `-cln(1 - 1/z)` and the rest term in
    /// powers of `log(-z)`.
    Inversion,
}

/// How the argument of `-z` is got from the argument of `z`.
#[derive(Clone, Copy, Debug, PartialEq, Eq, Structural)]
pub enum PhaseShift {
    /// `arg(z) > 0`: subtract `pi`.
    MinusPi,
    /// `arg(z) <= 0`, or it is a NaN: add `pi`.
    PlusPi,
}

/// The expansion for the squared modulus of the logarithm
/// `log_norm_sqr = ln(|z|)^2 + arg(z)^2` and the modulus `norm = |z|`.
pub open spec fn expansion_spec(log_norm_sqr: Binary64, norm: Binary64) -> Expansion {
    if log_norm_sqr.lt_spec(b64(ONE)) {
        Expansion::NearUnity
    } else if norm.le_spec(b64(ONE)) {
        Expansion::UnitDisk
    } else {
        Expansion::Inversion
    }
}

/// The expansion to use, from the squared modulus of `log(z)` and the
/// modulus of `z` as computed. A modulus that is infinite takes the
/// inversion.
pub fn expansion(log_norm_sqr: Binary64, norm: Binary64) -> (e: Expansion)
    ensures
        e == expansion_spec(log_norm_sqr, norm),
        e == Expansion::Inversion <==> !log_norm_sqr.lt_spec(b64(ONE)) && !norm.le_spec(b64(ONE)),
        norm == b64(INFINITY_BITS) && log_norm_sqr == b64(INFINITY_BITS) ==> e
            == Expansion::Inversion,
{
    proof {
        lemma_threshold_order();
    }
    if log_norm_sqr.lt(b64(ONE)) {
        Expansion::NearUnity
    } else if norm.le(b64(ONE)) {
        Expansion::UnitDisk
    } else {
        Expansion::Inversion
    }
}

/// The shift that turns `arg(z)` into `arg(-z)` and keeps it in
/// `(-pi, pi]`.
pub fn phase_shift(arg: Binary64) -> (shift: PhaseShift)
    ensures
        shift == PhaseShift::MinusPi <==> b64(ZERO).lt_spec(arg),
{
    if b64(ZERO).lt(arg) {
        PhaseShift::MinusPi
    } else {
        PhaseShift::PlusPi
    }
}

} // verus!
