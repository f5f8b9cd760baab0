use num::complex::Complex;
use polylog::cln::{cln_1p, CLn, Log1pBranch, LogBranch};
use polylog::complex::ComplexBits;
use polylog::ieee::b64;

fn c(re: f64, im: f64) -> ComplexBits {
    ComplexBits { re: b64(re.to_bits()), im: b64(im.to_bits()) }
}

// the logarithm along the branch that the library names
fn log(z: Complex<f64>) -> Complex<f64> {
    match c(z.re, z.im).cln() {
        LogBranch::PositiveReal => Complex::new(z.re.ln(), 0.0),
        LogBranch::NegativeReal => Complex::new((-z.re).ln(), std::f64::consts::PI),
        LogBranch::Principal => z.ln(),
    }
}

// the same in single precision: every f32 is an f64, and the branch of the
// wider number is the branch of the narrower one
fn log32(z: Complex<f32>) -> Complex<f32> {
    match c(z.re as f64, z.im as f64).cln() {
        LogBranch::PositiveReal => Complex::new(z.re.ln(), 0.0),
        LogBranch::NegativeReal => Complex::new((-z.re).ln(), std::f32::consts::PI),
        LogBranch::Principal => z.ln(),
    }
}

#[test]
fn test_cln() {
    // test positive zero
    let cnegone32 = Complex::new(-1.0_f32, 0.0_f32);
    let cnegone64 = Complex::new(-1.0_f64, 0.0_f64);

    assert!((log32(cnegone32) - Complex::new(0.0_f32, std::f32::consts::PI)).norm() < 4.0_f32*std::f32::EPSILON);
    assert!((cnegone32.ln()  - Complex::new(0.0_f32, std::f32::consts::PI)).norm() < 4.0_f32*std::f32::EPSILON);
    assert!(log(cnegone64) == Complex::new(0.0_f64, std::f64::consts::PI));
    assert!(cnegone64.ln()  == Complex::new(0.0_f64, std::f64::consts::PI));

    // test negative zero
    let cone32 = Complex::new(1.0_f32, 0.0_f32);
    let cone64 = Complex::new(1.0_f64, 0.0_f64);

    assert!((log32(-cone32) - Complex::new(0.0_f32,  std::f32::consts::PI)).norm() < 4.0_f32*std::f32::EPSILON);
    assert!(((-cone32).ln()  - Complex::new(0.0_f32, -std::f32::consts::PI)).norm() < 4.0_f32*std::f32::EPSILON);
    assert!(log(-cone64) == Complex::new(0.0_f64,  std::f64::consts::PI));
    assert!((-cone64).ln()  == Complex::new(0.0_f64, -std::f64::consts::PI));

    // test zero input
    let rzero32 = 0.0_f32;
    let rzero64 = 0.0_f64;

    assert!(log32(Complex::new( rzero32, rzero32)) == Complex::new(std::f32::NEG_INFINITY, 0.0));
    assert!(log32(Complex::new(-rzero32, rzero32)).re == std::f32::NEG_INFINITY);
    assert!((log32(Complex::new(-rzero32, rzero32)).im - std::f32::consts::PI).abs() < 4.0_f32*std::f32::EPSILON);
    assert!(log(Complex::new( rzero64, rzero64)) == Complex::new(std::f64::NEG_INFINITY, 0.0));
    assert!(log(Complex::new(-rzero64, rzero64)) == Complex::new(std::f64::NEG_INFINITY, std::f64::consts::PI));
}

#[test]
fn branch_on_the_real_axis() {
    assert_eq!(c(2.0, 0.0).cln(), LogBranch::PositiveReal);
    assert_eq!(c(2.0, -0.0).cln(), LogBranch::PositiveReal);
    assert_eq!(c(5e-324, 0.0).cln(), LogBranch::PositiveReal);
    assert_eq!(c(f64::INFINITY, 0.0).cln(), LogBranch::PositiveReal);
    assert_eq!(c(-2.0, 0.0).cln(), LogBranch::NegativeReal);
    assert_eq!(c(-2.0, -0.0).cln(), LogBranch::NegativeReal);
    assert_eq!(c(-5e-324, -0.0).cln(), LogBranch::NegativeReal);
    assert_eq!(c(f64::NEG_INFINITY, -0.0).cln(), LogBranch::NegativeReal);
    assert_eq!(c(0.0, 0.0).cln(), LogBranch::Principal);
    assert_eq!(c(-0.0, -0.0).cln(), LogBranch::Principal);
    assert_eq!(c(f64::NAN, 0.0).cln(), LogBranch::Principal);
}

#[test]
fn branch_off_the_real_axis() {
    assert_eq!(c(2.0, 5e-324).cln(), LogBranch::Principal);
    assert_eq!(c(-2.0, -5e-324).cln(), LogBranch::Principal);
    assert_eq!(c(0.0, 1.0).cln(), LogBranch::Principal);
    assert_eq!(c(-1.0, f64::NAN).cln(), LogBranch::Principal);
    assert_eq!(c(1.0, f64::INFINITY).cln(), LogBranch::Principal);
}

#[test]
fn imaginary_part_on_the_negative_real_axis_is_pi() {
    let pi = std::f64::consts::PI;
    for &re in [-3.0, -1.0, -1e-300, -0.0, 0.0, 1e-300, 1.0, 3.0].iter() {
        for &im in [-2.0, -1e-300, -0.0, 0.0, 1e-300, 2.0].iter() {
            let l = log(Complex::new(re, im));
            assert!(-pi <= l.im && l.im <= pi, "log({} + {}i) = {}", re, im, l);
            if im == 0.0 && re != 0.0 {
                assert!(l.im >= 0.0, "log({} + {}i) = {}", re, im, l);
            }
            if re < 0.0 && im == 0.0 {
                assert_eq!(l.im, pi);
            }
        }
    }
}

#[test]
fn log1p_branch() {
    assert_eq!(cln_1p(c(1.0, 0.0)), Log1pBranch::Argument);
    assert_eq!(cln_1p(c(1.0, -0.0)), Log1pBranch::Argument);
    assert_eq!(cln_1p(c(1.0000000000000002, 0.0)), Log1pBranch::Corrected);
    assert_eq!(cln_1p(c(1.0, 5e-324)), Log1pBranch::Corrected);
    assert_eq!(cln_1p(c(0.0, 0.0)), Log1pBranch::Corrected);
    assert_eq!(cln_1p(c(f64::NAN, 0.0)), Log1pBranch::Corrected);
}
