use polylog::axis::AxisPlan;
use polylog::complex::ComplexBits;
use polylog::ieee::{b64, Binary64};
use polylog::li3::{Li3, Li3Real};
use polylog::li4::{li4_approximant, Li4, Li4Approximant, Li4Real};
use polylog::li5::{Li5, SpecialPlan};
use polylog::li6::Li6;
use polylog::near_unity::{expansion, phase_shift, Expansion, PhaseShift};

fn d(x: f64) -> Binary64 {
    b64(x.to_bits())
}

fn c(re: f64, im: f64) -> ComplexBits {
    ComplexBits { re: d(re), im: d(im) }
}

#[test]
fn li3_known_values() {
    let z3 = 1.2020569031595943;
    assert_eq!(d(1.0).li3(), Li3Real::Exact(d(z3)));
    assert_eq!(d(-1.0).li3(), Li3Real::Exact(d(-0.75 * z3)));
    assert_eq!(d(0.5).li3(), Li3Real::Exact(d(0.53721319360804020)));
    assert_eq!(d(0.0).li3(), Li3Real::Exact(d(0.0)));
    assert_eq!(d(-0.0).li3(), Li3Real::Exact(d(-0.0)));
}

#[test]
fn li3_intervals_of_the_real_line() {
    for x in [f64::NEG_INFINITY, -2.0, -1.0000000000000002] {
        assert_eq!(d(x).li3(), Li3Real::BelowMinusOne);
    }
    for x in [-0.9999999999999999, -0.5, -5e-324] {
        assert_eq!(d(x).li3(), Li3Real::MinusOneToZero);
    }
    for x in [5e-324, 0.25, 0.49999999999999994] {
        assert_eq!(d(x).li3(), Li3Real::ZeroToHalf);
    }
    for x in [0.5000000000000001, 0.75, 0.9999999999999999] {
        assert_eq!(d(x).li3(), Li3Real::HalfToOne);
    }
    for x in [1.0000000000000002, 1.5, 1.9999999999999998] {
        assert_eq!(d(x).li3(), Li3Real::OneToTwo);
    }
    for x in [2.0, 1e300, f64::INFINITY, f64::NAN] {
        assert_eq!(d(x).li3(), Li3Real::FromTwo);
    }
}

#[test]
fn li4_known_values() {
    let z4 = 1.0823232337111382;
    assert_eq!(d(1.0).li4(), Li4Real::Exact(d(z4)));
    assert_eq!(d(-1.0).li4(), Li4Real::Exact(d(-7.0 / 8.0 * z4)));
    assert_eq!(d(0.0).li4(), Li4Real::Exact(d(0.0)));
    assert_eq!(d(-0.0).li4(), Li4Real::Exact(d(-0.0)));
}

#[test]
fn li4_intervals_of_the_real_line() {
    for x in [f64::NEG_INFINITY, -2.0, -1.0000000000000002] {
        assert_eq!(d(x).li4(), Li4Real::BelowMinusOne);
    }
    for x in [-0.9999999999999999, -5e-324, 5e-324, 0.5, 0.9999999999999999] {
        assert_eq!(d(x).li4(), Li4Real::Inside);
    }
    for x in [1.0000000000000002, 2.0, f64::INFINITY, f64::NAN] {
        assert_eq!(d(x).li4(), Li4Real::AboveOne);
    }
}

#[test]
fn li4_approximant_by_interval() {
    for y in [-1.0, -0.5, -5e-324] {
        assert_eq!(li4_approximant(d(y)), Li4Approximant::Negative);
    }
    for y in [-0.0, 0.0, 0.25, 0.49999999999999994] {
        assert_eq!(li4_approximant(d(y)), Li4Approximant::Half);
    }
    for y in [0.5, 0.7, 0.7999999999999999] {
        assert_eq!(li4_approximant(d(y)), Li4Approximant::Mid);
    }
    for y in [0.8, 0.9, 1.0, f64::NAN] {
        assert_eq!(li4_approximant(d(y)), Li4Approximant::One);
    }
}

#[test]
fn orders_three_and_four_on_the_real_axis() {
    for z in [c(0.0, 0.0), c(0.0, -0.0), c(-0.0, 0.0), c(-0.0, -0.0)] {
        assert_eq!(Li3::li3(&z), AxisPlan::Exact(z));
        assert_eq!(Li4::li4(&z), AxisPlan::Exact(z));
    }
    for x in [-3.0, -1.0, 0.5, 1.0] {
        assert_eq!(Li3::li3(&c(x, -0.0)), AxisPlan::RealAxis);
        assert_eq!(Li4::li4(&c(x, 0.0)), AxisPlan::RealAxis);
    }
    for x in [1.0000000000000002, 2.0, f64::INFINITY] {
        assert_eq!(Li3::li3(&c(x, 0.0)), AxisPlan::RealCut);
        assert_eq!(Li4::li4(&c(x, -0.0)), AxisPlan::RealCut);
    }
    assert_eq!(Li3::li3(&c(0.5, 1e-300)), AxisPlan::OffAxis);
    assert_eq!(Li4::li4(&c(0.5, -1e-300)), AxisPlan::OffAxis);
}

#[test]
fn orders_five_and_six_at_known_values() {
    let z5 = 1.0369277551433699;
    let z6 = 1.0173430619844491;
    for z in [c(0.0, 0.0), c(0.0, -0.0), c(-0.0, 0.0), c(-0.0, -0.0)] {
        assert_eq!(z.li5(), SpecialPlan::Exact(z));
        assert_eq!(z.li6(), SpecialPlan::Exact(z));
    }
    assert_eq!(c(1.0, 0.0).li5(), SpecialPlan::Exact(c(z5, 0.0)));
    assert_eq!(c(1.0, -0.0).li5(), SpecialPlan::Exact(c(z5, -0.0)));
    assert_eq!(c(-1.0, 0.0).li5(), SpecialPlan::Exact(c(-15.0 / 16.0 * z5, 0.0)));
    assert_eq!(c(-1.0, -0.0).li5(), SpecialPlan::Exact(c(-15.0 / 16.0 * z5, -0.0)));
    assert_eq!(c(1.0, 0.0).li6(), SpecialPlan::Exact(c(z6, 0.0)));
    assert_eq!(c(1.0, -0.0).li6(), SpecialPlan::Exact(c(z6, 0.0)));
    assert_eq!(c(-1.0, 0.0).li6(), SpecialPlan::Exact(c(-31.0 / 32.0 * z6, 0.0)));
    assert_eq!(c(-1.0, -0.0).li6(), SpecialPlan::Exact(c(-31.0 / 32.0 * z6, 0.0)));
    for z in [c(0.5, 0.0), c(2.0, 0.0), c(1.0, 5e-324), c(-1.0, 1.0), c(f64::NAN, 0.0)] {
        assert_eq!(z.li5(), SpecialPlan::Expand);
        assert_eq!(z.li6(), SpecialPlan::Expand);
    }
}

#[test]
fn expansion_by_logarithm_and_modulus() {
    assert_eq!(expansion(d(0.0), d(1.0)), Expansion::NearUnity);
    assert_eq!(expansion(d(0.9999999999999999), d(2.0)), Expansion::NearUnity);
    assert_eq!(expansion(d(1.0), d(1.0)), Expansion::UnitDisk);
    assert_eq!(expansion(d(9.0), d(0.05)), Expansion::UnitDisk);
    assert_eq!(expansion(d(f64::INFINITY), d(0.0)), Expansion::UnitDisk);
    assert_eq!(expansion(d(1.0), d(1.0000000000000002)), Expansion::Inversion);
    assert_eq!(expansion(d(9.0), d(20.0)), Expansion::Inversion);
    assert_eq!(expansion(d(f64::INFINITY), d(f64::INFINITY)), Expansion::Inversion);
    assert_eq!(expansion(d(f64::NAN), d(f64::NAN)), Expansion::Inversion);
}

#[test]
fn expansion_of_a_large_argument() {
    let (re, im) = (1e300_f64, 1.0_f64);
    let norm = re.hypot(im);
    let arg = im.atan2(re);
    let log_norm = norm.ln();
    assert!(norm.is_finite());
    assert_eq!(expansion(d(log_norm * log_norm + arg * arg), d(norm)), Expansion::Inversion);
}

#[test]
fn phase_of_the_negated_argument() {
    let pi = std::f64::consts::PI;
    for arg in [5e-324, 1.0, pi] {
        assert_eq!(phase_shift(d(arg)), PhaseShift::MinusPi);
        assert!(arg - pi >= -pi && arg - pi <= 0.0);
    }
    for arg in [0.0, -0.0, -5e-324, -1.0, -pi, f64::NAN] {
        assert_eq!(phase_shift(d(arg)), PhaseShift::PlusPi);
    }
}
