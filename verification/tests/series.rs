use polylog::complex::ComplexBits;
use polylog::digamma::{digamma, DigammaPlan};
use polylog::ieee::{b64, Binary64};
use polylog::li::harmonic::{harmonic, HarmonicPlan};
use polylog::series::{complex_step, real_step, ComplexStep, RealStep};

fn d(x: f64) -> Binary64 {
    b64(x.to_bits())
}

fn c(re: f64, im: f64) -> ComplexBits {
    ComplexBits { re: d(re), im: d(im) }
}

// sum of first, first * ratio(1), first * ratio(1) * ratio(2), ...
fn sum_series(first: f64, ratio: &dyn Fn(i32) -> f64, limit: i32) -> (f64, i32) {
    let mut sum = first;
    let mut term = first;
    for k in 1..limit {
        term *= ratio(k);
        let new_sum = sum + term;
        match real_step(d(sum), d(term), d(new_sum)) {
            RealStep::Stop(s) => return (f64::from_bits(s.bits), k),
            RealStep::Continue => sum = new_sum,
        }
    }
    (sum, limit)
}

#[test]
fn a_series_ends_when_the_sum_stands_still() {
    // e = sum of 1/k!
    let (e, terms) = sum_series(1.0, &|k| 1.0 / k as f64, 1000);
    assert!((e - std::f64::consts::E).abs() <= 2.0 * f64::EPSILON);
    assert!(terms < 25);
    // ln(2) = sum of (1/2)^k/k
    let (l, terms) = sum_series(0.5, &|k| 0.5 * k as f64 / (k + 1) as f64, 1000);
    assert!((l - std::f64::consts::LN_2).abs() <= 2.0 * f64::EPSILON);
    assert!(terms < 60);
}

#[test]
fn a_series_with_alternating_signs_ends() {
    // exp(-1)
    let (v, terms) = sum_series(1.0, &|k| -1.0 / k as f64, 1000);
    assert!((v - (-1.0_f64).exp()).abs() <= 2.0 * f64::EPSILON);
    assert!(terms < 25);
}

#[test]
fn a_term_that_underflows_to_zero_ends_the_series() {
    let (v, terms) = sum_series(1e-300, &|_| 1e-10, 1000);
    assert_eq!(v, 1e-300 + 1e-310);
    assert!(terms <= 3);
    assert_eq!(real_step(d(1.0), d(0.0), d(1.0)), RealStep::Stop(d(1.0)));
    assert_eq!(real_step(d(0.0), d(-0.0), d(0.0)), RealStep::Stop(d(0.0)));
}

#[test]
fn a_term_that_is_not_finite_is_not_added() {
    assert_eq!(real_step(d(1.5), d(f64::INFINITY), d(f64::INFINITY)), RealStep::Stop(d(1.5)));
    assert_eq!(real_step(d(1.5), d(f64::NEG_INFINITY), d(0.0)), RealStep::Stop(d(1.5)));
    assert_eq!(real_step(d(1.5), d(f64::NAN), d(f64::NAN)), RealStep::Stop(d(1.5)));
    let (v, terms) = sum_series(1.0, &|_| 1e200, 1000);
    assert_eq!(v, 1e200);
    assert_eq!(terms, 2);
}

#[test]
fn a_term_that_changes_the_sum_goes_on() {
    assert_eq!(real_step(d(1.0), d(f64::EPSILON), d(1.0 + f64::EPSILON)), RealStep::Continue);
    assert_eq!(real_step(d(1.0), d(-1.0), d(0.0)), RealStep::Continue);
    assert_eq!(real_step(d(f64::NAN), d(1.0), d(f64::NAN)), RealStep::Continue);
}

#[test]
fn a_complex_series_needs_both_parts_to_stand_still() {
    let old = c(1.0, 2.0);
    assert_eq!(complex_step(old, c(1e-20, 1e-20), c(1.0, 2.0)), ComplexStep::Stop(c(1.0, 2.0)));
    assert_eq!(complex_step(old, c(1e-20, 1.0), c(1.0, 3.0)), ComplexStep::Continue);
    assert_eq!(complex_step(old, c(1.0, 1e-20), c(2.0, 2.0)), ComplexStep::Continue);
    assert_eq!(complex_step(old, c(1.0, f64::NAN), c(2.0, f64::NAN)), ComplexStep::Stop(old));
    assert_eq!(
        complex_step(old, c(f64::INFINITY, 0.0), c(f64::INFINITY, 2.0)),
        ComplexStep::Stop(old)
    );
    assert_eq!(complex_step(c(0.0, 0.0), c(-0.0, -0.0), c(0.0, 0.0)), ComplexStep::Stop(c(0.0, 0.0)));
}

#[test]
fn harmonic_numbers_are_summed_below_twenty() {
    for n in 1..20 {
        assert_eq!(harmonic(n), HarmonicPlan::Sum { terms: n });
    }
    assert_eq!(harmonic(20), HarmonicPlan::Digamma { at: 21 });
    assert_eq!(harmonic(1000), HarmonicPlan::Digamma { at: 1001 });
    assert_eq!(harmonic(i32::MAX - 1), HarmonicPlan::Digamma { at: i32::MAX });
}

#[test]
fn digamma_expands_from_seven() {
    for n in 1..7 {
        assert_eq!(digamma(n), DigammaPlan { first: n, expand_at: 7 });
    }
    for n in [7, 8, 10, 21, 1000, i32::MAX] {
        assert_eq!(digamma(n), DigammaPlan { first: n, expand_at: n });
    }
}
