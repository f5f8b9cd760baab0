// The polylogarithms in double precision, computed along the plans of the
// library, and their values at arguments where they are known.
use num::complex::Complex;
use num::Zero;
use polylog::axis::AxisPlan;
use polylog::cln::{Log1pBranch, LogBranch};
use polylog::complex::ComplexBits;
use polylog::ieee::Binary64;
use polylog::li::cli::{high_order, ComplexPlan, HighOrder};
use polylog::li::fac::{fac, inv_fac};
use polylog::li::harmonic::HarmonicPlan;
use polylog::li::regime::{is_even, negative_order, odd_sgn, NegativeOrder};
use polylog::li::rest::{rest_term, rest_terms};
use polylog::li::rli::{real_series, LogSquare, RealPlan, RealSeries};
use polylog::li::zeta::zeta;
use polylog::li0::{Li0Complex, Li0Real};
use polylog::li1::{Li1Complex, Li1Real};
use polylog::li2::{li2_off_axis, Li2OffAxis, Li2Real};
use polylog::li3::Li3Real;
use polylog::li4::{li4_approximant, Li4Approximant, Li4Real};
use polylog::li5::SpecialPlan;
use polylog::near_unity::{expansion, phase_shift, Expansion, PhaseShift};
use polylog::series::{complex_step, real_step, ComplexStep, RealStep};

/// The bits of a double.
fn bits(x: f64) -> Binary64 {
    Binary64 { bits: x.to_bits() }
}

/// The double with the given bits.
fn float(x: Binary64) -> f64 {
    f64::from_bits(x.bits)
}

/// The bits of both parts of a complex number.
fn cbits(z: Complex<f64>) -> ComplexBits {
    ComplexBits { re: bits(z.re), im: bits(z.im) }
}

/// The complex number whose parts have the given bits.
fn cfloat(z: ComplexBits) -> Complex<f64> {
    Complex::new(float(z.re), float(z.im))
}

/// Provides an implementation of the complex logarithm `cln()` of a
/// number of type `T`, where the imaginary part of the logarithm is
/// within (-pi, pi]. In particular, arguments z with Im(z) == -0.0
/// are treated as having Im(z) == 0.0.
///
/// Note, that this behavior is different from the complex ln(), where
/// the imaginary part is within [-pi, pi].
///
/// `cln_1p()` is `cln(1 + z)`, accurate for small `z`.
pub trait CLn<T> {
    fn cln(&self) -> T;
    fn cln_1p(&self) -> T;
}

impl CLn<Complex<f64>> for Complex<f64> {
    fn cln(&self) -> Complex<f64> {
        match polylog::cln::CLn::cln(&cbits(*self)) {
            LogBranch::PositiveReal => Complex::new(self.re.ln(), 0.0),
            LogBranch::NegativeReal => Complex::new((-self.re).ln(), std::f64::consts::PI),
            LogBranch::Principal => self.ln(),
        }
    }

    fn cln_1p(&self) -> Complex<f64> {
        let u = 1.0 + self;
        match polylog::cln::cln_1p(cbits(u)) {
            Log1pBranch::Argument => *self,
            Log1pBranch::Corrected => u.cln() * (self / (u - 1.0)),
        }
    }
}

impl CLn<Complex<f32>> for Complex<f32> {
    fn cln(&self) -> Complex<f32> {
        // every f32 is an f64, so that the branch of the wider number is
        // the branch of this one
        let wide = Complex::new(self.re as f64, self.im as f64);
        match polylog::cln::CLn::cln(&cbits(wide)) {
            LogBranch::PositiveReal => Complex::new(self.re.ln(), 0.0),
            LogBranch::NegativeReal => Complex::new((-self.re).ln(), std::f32::consts::PI),
            LogBranch::Principal => self.ln(),
        }
    }

    fn cln_1p(&self) -> Complex<f32> {
        let u = 1.0 + self;
        let wide = Complex::new(u.re as f64, u.im as f64);
        match polylog::cln::cln_1p(cbits(wide)) {
            Log1pBranch::Argument => *self,
            Log1pBranch::Corrected => u.cln() * (self / (u - 1.0)),
        }
    }
}

/// Provides the 0-th order polylogarithm function `li0()` of a
/// number of type `T`.
pub trait Li0<T> {
    fn li0(&self) -> T;
}

impl Li0<f64> for f64 {
    /// Returns the real 0th order polylogarithm of a real number of
    /// type `f64`.
    fn li0(&self) -> f64 {
        match polylog::li0::Li0::li0(&bits(*self)) {
            Li0Real::Exact(v) => float(v),
            Li0Real::Quotient => self / (1.0 - self),
        }
    }
}

impl Li0<Complex<f64>> for Complex<f64> {
    /// Returns the 0th order polylogarithm of a complex number of
    /// type `Complex<f64>`.
    fn li0(&self) -> Complex<f64> {
        match polylog::li0::Li0::li0(&cbits(*self)) {
            Li0Complex::Exact(v) => cfloat(v),
            Li0Complex::Quotient => self / (1.0 - self),
        }
    }
}

/// Provides the 1st order polylogarithm function `li1()` of a
/// number of type `T`.
pub trait Li1<T> {
    fn li1(&self) -> T;
}

impl Li1<f64> for f64 {
    /// Returns the real first order polylogarithm of a real number of
    /// type `f64`.
    fn li1(&self) -> f64 {
        let x = *self;
        match polylog::li1::Li1::li1(&bits(x)) {
            Li1Real::Exact(v) => float(v),
            Li1Real::BelowOne => -(-x).ln_1p(),
            Li1Real::AboveOne => -(x - 1.0).ln(),
        }
    }
}

impl Li1<Complex<f64>> for Complex<f64> {
    /// Returns the first order polylogarithm of a complex number of
    /// type `Complex<f64>`.
    fn li1(&self) -> Complex<f64> {
        match polylog::li1::Li1::li1(&cbits(*self)) {
            Li1Complex::Exact(v) => cfloat(v),
            Li1Complex::NegLog => -(1.0 - self).cln(),
        }
    }
}

/// Provides the 2nd order polylogarithm (dilogarithm) function
/// `li2()` of a number of type `T`.
pub trait Li2<T> {
    fn li2(&self) -> T;
}

/// rational function approximation of Re[Li2(x)] for x in [0, 1/2]
fn li2_approx_f32(x: f32) -> f32 {
    let cp = [ 1.00000020_f32, -0.780790946_f32, 0.0648256871_f32 ];
    let cq = [ 1.00000000_f32, -1.03077545_f32, 0.211216710_f32 ];

    let p = cp[0] + x*(cp[1] + x*cp[2]);
    let q = cq[0] + x*(cq[1] + x*cq[2]);

    x*p/q
}

/// rational function approximation of Re[Li2(x)] for x in [0, 1/2]
fn li2_approx_f64(x: f64) -> f64 {
    let cp = [
         0.9999999999999999502e+0,
        -2.6883926818565423430e+0,
         2.6477222699473109692e+0,
        -1.1538559607887416355e+0,
         2.0886077795020607837e-1,
        -1.0859777134152463084e-2
    ];
    let cq = [
         1.0000000000000000000e+0,
        -2.9383926818565635485e+0,
         3.2712093293018635389e+0,
        -1.7076702173954289421e+0,
         4.1596017228400603836e-1,
        -3.9801343754084482956e-2,
         8.2743668974466659035e-4
    ];

    let x2 = x*x;
    let x4 = x2*x2;
    let p = cp[0] + x*cp[1] + x2*(cp[2] + x*cp[3]) +
        x4*(cp[4] + x*cp[5]);
    let q = cq[0] + x*cq[1] + x2*(cq[2] + x*cq[3]) +
        x4*(cq[4] + x*cq[5] + x2*cq[6]);

    x*p/q
}

impl Li2<f32> for f32 {
    /// Returns the real dilogarithm of a real number of type `f32`.
    ///
    /// Implemented as rational function approximation
    /// [[arXiv:2201.01678]].
    ///
    /// [arXiv:2201.01678]: https://arxiv.org/abs/2201.01678
    fn li2(&self) -> f32 {
        let pi = std::f32::consts::PI;
        let x = *self;

        // every f32 is an f64, and the interval of the wider number is the
        // interval of this one
        match polylog::li2::Li2::li2(&bits(x as f64)) {
            Li2Real::Exact(v) => float(v) as f32,
            Li2Real::BelowMinusOne => {
                let l = (1.0_f32 - x).ln();
                li2_approx_f32(1.0_f32/(1.0_f32 - x)) - pi*pi/6.0_f32 + l*(0.5_f32*l - (-x).ln())
            }
            Li2Real::MinusOneToZero => {
                let l = (-x).ln_1p();
                -li2_approx_f32(x/(x - 1.0_f32)) - 0.5_f32*l*l
            }
            Li2Real::ZeroToHalf => li2_approx_f32(x),
            Li2Real::HalfToOne => {
                -li2_approx_f32(1.0_f32 - x) + pi*pi/6.0_f32 - x.ln()*(-x).ln_1p()
            }
            Li2Real::OneToTwo => {
                let l = x.ln();
                li2_approx_f32(1.0_f32 - 1.0_f32/x) + pi*pi/6.0_f32 - l*((1.0_f32 - 1.0_f32/x).ln() + 0.5_f32*l)
            }
            Li2Real::FromTwo => {
                let l = x.ln();
                -li2_approx_f32(1.0_f32/x) + pi*pi/3.0_f32 - 0.5_f32*l*l
            }
        }
    }
}

impl Li2<f64> for f64 {
    /// Returns the real dilogarithm of a real number of type `f64`.
    ///
    /// Implemented as rational function approximation with a maximum
    /// error of 5e-17 [[arXiv:2201.01678]].
    ///
    /// [arXiv:2201.01678]: https://arxiv.org/abs/2201.01678
    fn li2(&self) -> f64 {
        let pi = std::f64::consts::PI;
        let x = *self;

        // transform to [0, 1/2]
        match polylog::li2::Li2::li2(&bits(x)) {
            Li2Real::Exact(v) => float(v),
            Li2Real::BelowMinusOne => {
                let l = (1.0_f64 - x).ln();
                li2_approx_f64(1.0_f64/(1.0_f64 - x)) - pi*pi/6.0_f64 + l*(0.5_f64*l - (-x).ln())
            }
            Li2Real::MinusOneToZero => {
                let l = (-x).ln_1p();
                -li2_approx_f64(x/(x - 1.0_f64)) - 0.5_f64*l*l
            }
            Li2Real::ZeroToHalf => li2_approx_f64(x),
            Li2Real::HalfToOne => {
                -li2_approx_f64(1.0_f64 - x) + pi*pi/6.0_f64 - x.ln()*(-x).ln_1p()
            }
            Li2Real::OneToTwo => {
                let l = x.ln();
                li2_approx_f64(1.0_f64 - 1.0_f64/x) + pi*pi/6.0_f64 - l*((1.0_f64 - 1.0_f64/x).ln() + 0.5_f64*l)
            }
            Li2Real::FromTwo => {
                let l = x.ln();
                -li2_approx_f64(1.0_f64/x) + pi*pi/3.0_f64 - 0.5_f64*l*l
            }
        }
    }
}

impl Li2<Complex<f32>> for Complex<f32> {
    /// Returns the dilogarithm of a complex number of type
    /// `Complex<f32>`, computed in double precision and rounded.
    fn li2(&self) -> Complex<f32> {
        let wide = Complex::new(self.re as f64, self.im as f64).li2();
        Complex::new(wide.re as f32, wide.im as f32)
    }
}

impl Li2<Complex<f64>> for Complex<f64> {
    /// Returns the dilogarithm of a complex number of type
    /// `Complex<f64>`.
    fn li2(&self) -> Complex<f64> {
        let pi = std::f64::consts::PI;

        // bf[1..N-1] are the even Bernoulli numbers / (2 n + 1)!
        // generated by: Table[BernoulliB[2 n]/(2 n + 1)!, {n, 1, 19}]
        let bf = [
            - 1.0_f64/4.0_f64,
              1.0_f64/36.0_f64,
            - 1.0_f64/3600.0_f64,
              1.0_f64/211680.0_f64,
            - 1.0_f64/10886400.0_f64,
              1.0_f64/526901760.0_f64,
            - 4.0647616451442255e-11_f64,
              8.9216910204564526e-13_f64,
            - 1.9939295860721076e-14_f64,
              4.5189800296199182e-16_f64,
        ];

        let rz = self.re;

        let (u, rest, sgn) = match polylog::li2::Li2::li2(&cbits(*self)) {
            AxisPlan::Exact(v) => return cfloat(v),
            AxisPlan::RealAxis => return Complex::new(rz.li2(), 0.0_f64),
            AxisPlan::RealCut => return Complex::new(rz.li2(), -pi*rz.ln()),
            AxisPlan::OffAxis => match li2_off_axis(bits(rz), bits(self.norm_sqr())) {
                Li2OffAxis::Tiny => return self*(1.0_f64 + 0.25_f64*self),
                Li2OffAxis::Direct => {
                    (-(1.0_f64 - self).cln(), Complex::new(0.0_f64, 0.0_f64), 1.0_f64)
                }
                Li2OffAxis::Reflection => {
                    let l = -(self).cln();
                    (l, l*(1.0_f64 - self).cln() + pi*pi/6.0_f64, -1.0_f64)
                }
                Li2OffAxis::Inversion => {
                    let l = (-self).cln();
                    (-(1.0_f64 - 1.0_f64/self).cln(), -0.5_f64*l*l - pi*pi/6.0_f64, -1.0_f64)
                }
            },
        };

        let u2 = u*u;
        let u4 = u2*u2;
        let sum =
            u +
            u2*(bf[0] +
            u *(bf[1] +
            u2*(
                bf[2] +
                u2*bf[3] +
                u4*(bf[4] + u2*bf[5]) +
                u4*u4*(bf[6] + u2*bf[7] + u4*(bf[8] + u2*bf[9]))
            )));

        sgn*sum + rest
    }
}

/// Provides the 3rd order polylogarithm (trilogarithm) function
/// `li3()` of a number of type `T`.
pub trait Li3<T> {
    fn li3(&self) -> T;
}

impl Li3<f64> for f64 {
    /// Returns the real trilogarithm of a real number of type `f64`.
    ///
    /// Implemented as rational function approximations with a maximum
    /// error of less than 2.050e-17 [[arXiv:2308.11619]].
    ///
    /// [arXiv:2308.11619]: https://arxiv.org/abs/2308.11619
    fn li3(&self) -> f64 {
        let z2 = 1.6449340668482264;
        let z3 = 1.2020569031595943;
        let x = *self;

        // transformation to [-1,0] and [0,1/2]
        match polylog::li3::Li3::li3(&bits(x)) {
            Li3Real::Exact(v) => float(v),
            Li3Real::BelowMinusOne => {
                let l = (-x).ln();
                li3_neg(1.0/x) - l*(z2 + 1.0/6.0*l*l)
            }
            Li3Real::MinusOneToZero => li3_neg(x),
            Li3Real::ZeroToHalf => li3_pos(x),
            Li3Real::HalfToOne => {
                let l = x.ln();
                -li3_neg(1.0 - x.recip()) - li3_pos(1.0 - x) + z3 + l*(z2 + l*(-0.5*(-x).ln_1p() + 1.0/6.0*l))
            }
            Li3Real::OneToTwo => {
                let l = x.ln();
                -li3_neg(1.0 - x) - li3_pos(1.0 - x.recip()) + z3 + l*(z2 + l*(-0.5*(x - 1.0).ln() + 1.0/6.0*l))
            }
            Li3Real::FromTwo => {
                let l = x.ln();
                li3_pos(x.recip()) + l*(2.0*z2 - 1.0/6.0*l*l)
            }
        }
    }
}

// Li_3(x) for x in [-1,0]
fn li3_neg(x: f64) -> f64 {
    let cp = [
        0.9999999999999999795e+0, -2.0281801754117129576e+0,
        1.4364029887561718540e+0, -4.2240680435713030268e-1,
        4.7296746450884096877e-2, -1.3453536579918419568e-3
    ];
    let cq = [
        1.0000000000000000000e+0, -2.1531801754117049035e+0,
        1.6685134736461140517e+0, -5.6684857464584544310e-1,
        8.1999463370623961084e-2, -4.0756048502924149389e-3,
        3.4316398489103212699e-5
    ];

    let x2 = x*x;
    let x4 = x2*x2;
    let p = cp[0] + x * cp[1] + x2 * (cp[2] + x * cp[3]) +
            x4 * (cp[4] + x * cp[5]);
    let q = cq[0] + x * cq[1] + x2 * (cq[2] + x * cq[3]) +
            x4 * (cq[4] + x * cq[5] + x2 * cq[6]);

    x*p/q
}

// Li_3(x) for x in [0,1/2]
fn li3_pos(x: f64) -> f64 {
    let cp = [
        0.9999999999999999893e+0, -2.5224717303769789628e+0,
        2.3204919140887894133e+0, -9.3980973288965037869e-1,
        1.5728950200990509052e-1, -7.5485193983677071129e-3
    ];
    let cq = [
        1.0000000000000000000e+0, -2.6474717303769836244e+0,
        2.6143888433492184741e+0, -1.1841788297857667038e+0,
        2.4184938524793651120e-1, -1.8220900115898156346e-2,
        2.4927971540017376759e-4
    ];

    let x2 = x*x;
    let x4 = x2*x2;
    let p = cp[0] + x * cp[1] + x2 * (cp[2] + x * cp[3]) +
            x4 * (cp[4] + x * cp[5]);
    let q = cq[0] + x * cq[1] + x2 * (cq[2] + x * cq[3]) +
            x4 * (cq[4] + x * cq[5] + x2 * cq[6]);

    x*p/q
}

impl Li3<Complex<f64>> for Complex<f64> {
    /// Returns the trilogarithm of a complex number of type `Complex<f64>`.
    fn li3(&self) -> Complex<f64> {
        let pi  = std::f64::consts::PI;
        let z2  = 1.6449340668482264;
        let z3  = 1.2020569031595943;

        match polylog::li3::Li3::li3(&cbits(*self)) {
            AxisPlan::Exact(v) => return cfloat(v),
            AxisPlan::RealAxis => return Complex::new(self.re.li3(), self.im),
            AxisPlan::RealCut => {
                let l = self.re.ln();
                return Complex::new(self.re.li3(), -0.5*pi*l*l)
            }
            AxisPlan::OffAxis => {}
        }

        let nz  = self.norm();
        let pz  = self.arg();
        let lnz = nz.ln();

        match expansion(bits(lnz*lnz + pz*pz), bits(nz)) {
            Expansion::NearUnity => { // |log(z)| < 1
                let u  = Complex::new(lnz, pz);
                let u2 = u*u;
                let u4 = u2*u2;
                let u8 = u4*u4;
                let c0 = z3 + u*(z2 - u2/12.0);
                let c1 = 0.25 * (3.0 - 2.0*(-u).cln());

                let cs = [
                    -3.4722222222222222e-03, 1.1574074074074074e-05,
                    -9.8418997228521038e-08, 1.1482216343327454e-09,
                    -1.5815724990809166e-11, 2.4195009792525152e-13,
                    -3.9828977769894877e-15
                ];

                c0 +
                c1*u2 +
                u4*(cs[0] + u2*cs[1]) +
                u8*(cs[2] + u2*cs[3] + u4*(cs[4] + u2*cs[5])) +
                u8*u8*cs[6]
            }
            Expansion::UnitDisk => cli3_unit_circle(-(1.0 - self).cln()),
            Expansion::Inversion => {
                let arg = match phase_shift(bits(pz)) {
                    PhaseShift::MinusPi => pz - pi,
                    PhaseShift::PlusPi => pz + pi,
                };
                let lmz = Complex::new(lnz, arg); // (-self).cln()
                cli3_unit_circle(-(1.0 - 1.0/self).cln()) - lmz*(lmz*lmz/6.0 + z2)
            }
        }
    }
}

/// series approximation of Li3(z) for |z| <= 1
/// in terms of x = -ln(1 - z)
fn cli3_unit_circle(x: Complex<f64>) -> Complex<f64> {
    let bf  = [
        1.0, -3.0/8.0, 17.0/216.0, -5.0/576.0,
        1.2962962962962963e-04,  8.1018518518518519e-05,
       -3.4193571608537595e-06, -1.3286564625850340e-06,
        8.6608717561098513e-08,  2.5260875955320400e-08,
       -2.1446944683640648e-09, -5.1401106220129789e-10,
        5.2495821146008294e-11,  1.0887754406636318e-11,
       -1.2779396094493695e-12, -2.3698241773087452e-13,
        3.1043578879654623e-14,  5.2617586299125061e-15,
    ];
    let x2 = x*x;
    let x4 = x2*x2;
    let x8 = x4*x4;

    x*bf[0] +
    x2*(bf[1] + x*bf[2]) +
    x4*(bf[3] + x*bf[4] + x2*(bf[5] + x*bf[6])) +
    x8*(bf[7] + x*bf[8] + x2*(bf[9] + x*bf[10]) +
        x4*(bf[11] + x*bf[12] + x2*(bf[13] + x*bf[14]))) +
    x8*x8*(bf[15] + x*bf[16] + x2*bf[17])
}

/// Provides the 4-th order polylogarithm function `li4()` of a
/// number of type `T`.
pub trait Li4<T> {
    fn li4(&self) -> T;
}

impl Li4<f64> for f64 {
    /// Returns the fourth order polylogarithm of a real number of type `f64`.
    fn li4(&self) -> f64 {
        let z2 = 1.6449340668482264;
        let z4 = 1.0823232337111382;
        let x = *self;

        // transform x to y in [-1,1]
        let (y, rest, sgn) = match polylog::li4::Li4::li4(&bits(x)) {
            Li4Real::Exact(v) => return float(v),
            Li4Real::BelowMinusOne => {
                let l = (-x).ln();
                let l2 = l*l;
                (1.0/x, -7.0/4.0*z4 + l2*(-0.5*z2 - 1.0/24.0*l2), -1.0)
            }
            Li4Real::Inside => (x, 0.0, 1.0),
            Li4Real::AboveOne => {
                let l = x.ln();
                let l2 = l*l;
                (1.0/x, 2.0*z4 + l2*(z2 - 1.0/24.0*l2), -1.0)
            }
        };

        match li4_approximant(bits(y)) {
            Li4Approximant::Negative => sgn*li4_neg(y) + rest,
            Li4Approximant::Half => sgn*li4_half(y) + rest,
            Li4Approximant::Mid => sgn*li4_mid(y) + rest,
            Li4Approximant::One => sgn*li4_one(y) + rest,
        }
    }
}

// Li_4(x) for x in [-1,0]
fn li4_neg(x: f64) -> f64 {
    let cp = [
        0.9999999999999999952e+0, -1.8532099956062184217e+0,
        1.1937642574034898249e+0, -3.1817912243893560382e-1,
        3.2268284189261624841e-2, -8.3773570305913850724e-4
    ];
    let cq = [
        1.0000000000000000000e+0, -1.9157099956062165688e+0,
        1.3011504531166486419e+0, -3.7975653506939627186e-1,
        4.5822723996558783670e-2, -1.8023912938765272341e-3,
        1.0199621542882314929e-5
    ];

    let x2 = x*x;
    let x4 = x2*x2;
    let p = cp[0] + x * cp[1] + x2 * (cp[2] + x * cp[3]) +
            x4 * (cp[4] + x * cp[5]);
    let q = cq[0] + x * cq[1] + x2 * (cq[2] + x * cq[3]) +
            x4 * (cq[4] + x * cq[5] + x2 * cq[6]);

    x*p/q
}

// Li_4(x) for x in [0,1/2]
fn li4_half(x: f64) -> f64 {
    let cp = [
        1.0000000000000000414e+0, -2.0588072418045364525e+0,
        1.4713328756794826579e+0, -4.2608608613069811474e-1,
        4.2975084278851543150e-2, -6.8314031819918920802e-4
    ];
    let cq = [
        1.0000000000000000000e+0, -2.1213072418045207223e+0,
        1.5915688992789175941e+0, -5.0327641401677265813e-1,
        6.1467217495127095177e-2, -1.9061294280193280330e-3
    ];

    let x2 = x*x;
    let x4 = x2*x2;
    let p = cp[0] + x * cp[1] + x2 * (cp[2] + x * cp[3]) +
            x4 * (cp[4] + x * cp[5]);
    let q = cq[0] + x * cq[1] + x2 * (cq[2] + x * cq[3]) +
            x4 * (cq[4] + x * cq[5]);

    x*p/q
}

// Li_4(x) for x in [1/2,8/10]
fn li4_mid(x: f64) -> f64 {
    let cp = [
        3.2009826406098890447e-9, 9.9999994634837574160e-1,
       -2.9144851228299341318e+0, 3.1891031447462342009e+0,
       -1.6009125158511117090e+0, 3.5397747039432351193e-1,
       -2.5230024124741454735e-2
    ];
    let cq = [
        1.0000000000000000000e+0, -2.9769855248411488460e+0,
        3.3628208295110572579e+0, -1.7782471949702788393e+0,
        4.3364007973198649921e-1, -3.9535592340362510549e-2,
        5.7373431535336755591e-4
    ];

    let x2 = x*x;
    let x4 = x2*x2;
    let p = cp[0] + x * cp[1] + x2 * (cp[2] + x * cp[3]) +
            x4 * (cp[4] + x * cp[5] + x2 * cp[6]);
    let q = cq[0] + x * cq[1] + x2 * (cq[2] + x * cq[3]) +
            x4 * (cq[4] + x * cq[5] + x2 * cq[6]);

    p/q
}

// Li_4(x) for x in [8/10,1]
fn li4_one(x: f64) -> f64 {
    let z2 = 1.6449340668482264;
    let z3 = 1.2020569031595943;
    let z4 = 1.0823232337111382;
    let l = x.ln();
    let l2 = l*l;

    z4 +
    l*(z3 +
    l*(0.5*z2 +
    l*(11.0/36.0 - 1.0/6.0*(-l).ln() +
    l*(-1.0/48.0 +
    l*(-1.0/1440.0 +
    l2*(1.0/604800.0 - 1.0/91445760.0*l2))))))
}

impl Li4<Complex<f64>> for Complex<f64> {
    /// Returns the fourth order polylogarithm of a complex number of type
    /// `Complex<f64>`.
    fn li4(&self) -> Complex<f64> {
        let pi  = std::f64::consts::PI;
        let pi2 = pi*pi;
        let z4  = 1.0823232337111382;

        match polylog::li4::Li4::li4(&cbits(*self)) {
            AxisPlan::Exact(v) => return cfloat(v),
            AxisPlan::RealAxis => return Complex::new(self.re.li4(), 0.0),
            AxisPlan::RealCut => {
                let l = self.re.ln();
                return Complex::new(self.re.li4(), -pi/6.0*l*l*l)
            }
            AxisPlan::OffAxis => {}
        }

        let nz  = self.norm();
        let pz  = self.arg();
        let lnz = nz.ln();

        match expansion(bits(lnz*lnz + pz*pz), bits(nz)) {
            Expansion::NearUnity => { // |log(z)| < 1
                let u  = Complex::new(lnz, pz);
                let u2 = u*u;
                let u4 = u2*u2;
                let u8 = u4*u4;
                let c1 = 1.2020569031595943; // zeta(3)
                let c2 = 0.82246703342411322;
                let c3 = (11.0/6.0 - (-u).cln())/6.0;
                let c4 = -1.0/48.0;

                let cs = [
                    -6.9444444444444444e-04, 1.6534391534391534e-06,
                    -1.0935444136502338e-08, 1.0438378493934049e-10,
                    -1.2165942300622435e-12, 1.6130006528350101e-14,
                    -2.3428810452879340e-16
                ];

                z4 + u2 * (c2 + u2 * c4) +
                    u * (
                        c1 +
                        c3*u2 +
                        u4*(cs[0] + u2*cs[1]) +
                        u8*(cs[2] + u2*cs[3] + u4*(cs[4] + u2*cs[5])) +
                        u8*u8*cs[6]
                    )
            }
            Expansion::UnitDisk => cli4_unit_circle(-(1.0 - self).cln()),
            Expansion::Inversion => {
                let pi4  = pi2*pi2;
                let arg = match phase_shift(bits(pz)) {
                    PhaseShift::MinusPi => pz - pi,
                    PhaseShift::PlusPi => pz + pi,
                };
                let lmz = Complex::new(lnz, arg); // (-self).cln()
                let lmz2 = lmz*lmz;
                -cli4_unit_circle(-(1.0 - 1.0/self).cln()) + 1.0/360.0*(-7.0*pi4 + lmz2*(-30.0*pi2 - 15.0*lmz2))
            }
        }
    }
}

/// series approximation of Li4(z) for |z| <= 1
/// in terms of x = -ln(1 - z)
fn cli4_unit_circle(x: Complex<f64>) -> Complex<f64> {
    let bf  = [
        1.0                   , -7.0/16.0              ,
        1.1651234567901235e-01, -1.9820601851851852e-02,
        1.9279320987654321e-03, -3.1057098765432099e-05,
       -1.5624009114857835e-05,  8.4851235467732066e-07,
        2.2909616603189711e-07, -2.1832614218526917e-08,
       -3.8828248791720156e-09,  5.4462921032203321e-10,
        6.9608052106827254e-11, -1.3375737686445215e-11,
       -1.2784852685266572e-12,  3.2605628580248922e-13,
        2.3647571168618257e-14, -7.9231351220311617e-15,
    ];

    let x2 = x*x;
    let x4 = x2*x2;
    let x8 = x4*x4;

    x*bf[0] +
    x2*(bf[1] + x*bf[2]) +
    x4*(bf[3] + x*bf[4] + x2*(bf[5] + x*bf[6])) +
    x8*(bf[7] + x*bf[8] + x2*(bf[9] + x*bf[10]) +
        x4*(bf[11] + x*bf[12] + x2*(bf[13] + x*bf[14]))) +
    x8*x8*(bf[15] + x*bf[16] + x2*bf[17])
}

/// Provides the 5-th order polylogarithm function `li5()` of a
/// number of type `T`.
pub trait Li5<T> {
    fn li5(&self) -> T;
}

impl Li5<Complex<f64>> for Complex<f64> {
    /// Returns the fifth order polylogarithm of a complex number of type
    /// `Complex<f64>`.
    fn li5(&self) -> Complex<f64> {
        let pi  = std::f64::consts::PI;
        let pi2 = pi*pi;
        let z5  = 1.0369277551433699; // zeta(5)

        match polylog::li5::Li5::li5(&cbits(*self)) {
            SpecialPlan::Exact(v) => return cfloat(v),
            SpecialPlan::Expand => {}
        }

        let nz  = self.norm();
        let pz  = self.arg();
        let lnz = nz.ln();

        match expansion(bits(lnz*lnz + pz*pz), bits(nz)) {
            Expansion::NearUnity => { // |log(z)| < 1
                let u  = Complex::new(lnz, pz);
                let u2 = u*u;
                let c1 = 1.0823232337111382; // zeta(4)
                let c2 = 0.60102845157979714; // zeta(3)/2
                let c3 = 0.27415567780803774;
                let c4 = (25.0/12.0 - (-u).cln())/24.0;
                let c5 = -1.0/240.0;

                let cs = [
                    -1.1574074074074074e-04, 2.0667989417989418e-07,
                    -1.0935444136502338e-09, 8.6986487449450412e-12,
                    -8.6899587861588824e-14, 1.0081254080218813e-15
                ];

                z5 + u * c1 +
                u2 * (c2 + u * c3 +
                u2 * (c4 + u * c5 +
                u2 * (cs[0] +
                u2 * (cs[1] +
                u2 * (cs[2] +
                u2 * (cs[3] +
                u2 * (cs[4] +
                u2 * (cs[5]))))))))
            }
            Expansion::UnitDisk => cli5_unit_circle(-(1.0 - self).cln()),
            Expansion::Inversion => {
                let pi4  = pi2*pi2;
                let arg = match phase_shift(bits(pz)) {
                    PhaseShift::MinusPi => pz - pi,
                    PhaseShift::PlusPi => pz + pi,
                };
                let lmz = Complex::new(lnz, arg); // (-self).cln()
                let lmz2 = lmz*lmz;
                cli5_unit_circle(-(1.0 - 1.0/self).cln()) - 1.0/360.0*lmz*(7.0*pi4 + lmz2*(10.0*pi2 + 3.0*lmz2))
            }
        }
    }
}

/// series approximation of Li5(z) for |z| <= 1
/// in terms of x = -ln(1 - z)
fn cli5_unit_circle(x: Complex<f64>) -> Complex<f64> {
    let bf  = [
        1.0                   , -15.0/32.0             ,
        1.3953189300411523e-01, -2.8633777006172840e-02,
        4.0317412551440329e-03, -3.3985018004115226e-04,
        4.5445184621617666e-06,  2.3916808048569012e-06,
       -1.2762692600122747e-07, -3.1628984306505932e-08,
        3.2848118445335192e-09,  4.7613713995660579e-10,
       -8.0846898171909830e-11, -7.2387648587737207e-12,
        1.9439760115173968e-12,  1.0256978405977236e-13,
       -4.6180551009884830e-14, -1.1535857196470580e-15,
        1.0903545401333394e-15
    ];

    let x2 = x*x;
    let x4 = x2*x2;
    let x8 = x4*x4;

    x*bf[0] +
    x2*(bf[1] + x*bf[2]) +
    x4*(bf[3] + x*bf[4] + x2*(bf[5] + x*bf[6])) +
    x8*(bf[7] + x*bf[8] + x2*(bf[9] + x*bf[10]) +
        x4*(bf[11] + x*bf[12] + x2*(bf[13] + x*bf[14]))) +
    x8*x8*(bf[15] + x*bf[16] + x2*(bf[17] + x*bf[18]))
}

/// Provides the 6-th order polylogarithm function `li6()` of a
/// number of type `T`.
pub trait Li6<T> {
    fn li6(&self) -> T;
}

impl Li6<Complex<f64>> for Complex<f64> {
    /// Returns the sixth order polylogarithm of a complex number of type
    /// `Complex<f64>`.
    fn li6(&self) -> Complex<f64> {
        let pi  = std::f64::consts::PI;
        let pi2 = pi*pi;
        let z6  = 1.0173430619844491; // zeta(6)

        match polylog::li6::Li6::li6(&cbits(*self)) {
            SpecialPlan::Exact(v) => return cfloat(v),
            SpecialPlan::Expand => {}
        }

        let nz  = self.norm();
        let pz  = self.arg();
        let lnz = nz.ln();

        match expansion(bits(lnz*lnz + pz*pz), bits(nz)) {
            Expansion::NearUnity => { // |log(z)| < 1
                let u  = Complex::new(lnz, pz);
                let u2 = u*u;
                let c1 = 1.0369277551433699; // zeta(5)
                let c2 = 0.54116161685556910;
                let c3 = 0.20034281719326571;
                let c4 = 0.068538919452009435;
                let c5 = (137.0/60.0 - (-u).cln())/120.0;
                let c6 = -1.0/1440.0;

                let cs = [
                    -1.6534391534391534e-05, 2.2964432686654909e-08,
                    -9.9413128513657614e-11, 6.6912682653423394e-13,
                    -5.7933058574392549e-15
                ];

                z6 + u * c1 +
                u2 * (c2 + u * c3 +
                u2 * (c4 + u * c5 +
                u2 * (c6 +
                u * (cs[0] +
                u2 * (cs[1] +
                u2 * (cs[2] +
                u2 * (cs[3] +
                u2 * (cs[4]))))))))
            }
            Expansion::UnitDisk => cli6_unit_circle(-(-self).cln_1p()),
            Expansion::Inversion => {
                let pi4 = pi2*pi2;
                let pi6 = pi2*pi4;
                let arg = match phase_shift(bits(pz)) {
                    PhaseShift::MinusPi => pz - pi,
                    PhaseShift::PlusPi => pz + pi,
                };
                let lmz = Complex::new(lnz, arg); // (-self).cln()
                let lmz2 = lmz*lmz;
                -cli6_unit_circle(-(-1.0/self).cln_1p()) - 31.0*pi6/15120.0 + lmz2*(-7.0/720.0*pi4 + lmz2*(-1.0/144.0*pi2 - 1.0/720.0*lmz2))
            }
        }
    }
}

/// series approximation of Li6(z) for |z| <= 1
/// in terms of x = -ln(1 - z)
fn cli6_unit_circle(x: Complex<f64>) -> Complex<f64> {
    let bf  = [
        1.0                   , -31.0/64.0             ,
        1.5241340877914952e-01, -3.4365555877057613e-02,
        5.7174797239368999e-03, -6.8180453746570645e-04,
        4.9960361948734493e-05, -4.9166051196039048e-07,
       -3.0632975161302164e-07,  1.4414599270849095e-08,
        3.7272438230924107e-09, -3.7300867345487607e-10,
       -5.1246526816085832e-11,  9.0541930956636683e-12,
        6.7381882615512517e-13, -2.1215831150303135e-13,
       -6.8408811719011698e-15,  4.8691178462005581e-15
    ];

    let x2 = x*x;
    let x4 = x2*x2;
    let x8 = x4*x4;

    x*bf[0] +
    x2*(bf[1] + x*bf[2]) +
    x4*(bf[3] + x*bf[4] + x2*(bf[5] + x*bf[6])) +
    x8*(bf[7] + x*bf[8] + x2*(bf[9] + x*bf[10]) +
        x4*(bf[11] + x*bf[12] + x2*(bf[13] + x*bf[14]))) +
    x8*x8*(bf[15] + x*bf[16] + x2*bf[17])
}

/// digamma for integer n > 0, following
/// [K.S. Kölbig: Programs for computing the logarithm of the gamma
/// function, and the digamma function, for complex argument, Computer
/// Physics Communications, Volume 4, Issue 2, 1972, Pages 221-226, ISSN
/// 0010-4655, https://doi.org/10.1016/0010-4655(72)90012-4]
fn digamma(n: i32) -> f64 {
    // Table[BernoulliB[2n]/(2 n), {n,1,8}]
    let c = [
        0.083333333333333333, -0.0083333333333333333,  0.0039682539682539683,
       -0.0041666666666666667, 0.0075757575757575758, -0.021092796092796093,
        0.083333333333333333, -0.44325980392156863
    ];

    if n <= 0 {
        panic!("digamma not implemented for n <= 0 (given value: n = {})", n);
    }

    let plan = polylog::digamma::digamma(n);

    // recurrence formula: lift a small n up to where the expansion holds
    let mut res = 0.0;
    for k in (plan.first + 1)..plan.expand_at {
        res -= (k as f64).recip();
    }
    if plan.first < plan.expand_at {
        res -= (plan.first as f64).recip();
    }

    let m = plan.expand_at as f64;
    let t = m.recip();
    let t2 = t*t;

    res + m.ln() - 0.5*t
    - t2*(c[0] + t2*(c[1] + t2*(c[2] + t2*(c[3] + t2*(c[4] + t2*(c[5] + t2*(c[6] + t2*c[7])))))))
}

/// returns n-th harmonic number, n > 0
fn harmonic(n: i32) -> f64 {
    if n <= 0 {
        panic!("harmonic not implemented for n <= 0 (given value: n = {})",  n)
    }
    if n == i32::MAX {
        panic!("harmonic not implemented for n = {}: n + 1 is no i32", n)
    }
    match polylog::li::harmonic::harmonic(n) {
        HarmonicPlan::Sum { terms } => {
            let mut sum = 1.0;
            for k in 2..=terms {
                sum += (k as f64).recip();
            }
            sum
        }
        HarmonicPlan::Digamma { at } => {
            let eulergamma = 0.57721566490153286;
            eulergamma + digamma(at)
        }
    }
}

/// gamma function for integer n > 0
fn gamma(n: i32) -> f64 {
    if n < 1 {
        panic!("gamma not implemented for n < 1 (given value: n = {})", n);
    }
    float(polylog::li::gamma::gamma(n))
}

/// Provides the n-th order polylogarithm function `li()` of a number of type `T`.
pub trait Li<T> {
    fn li(&self, n: i32) -> T;
}

impl Li<Complex<f64>> for Complex<f64> {
    /// Returns the complex n-th order polylogarithm of a complex
    /// number of type `Complex<f64>` for all integers `n`.
    ///
    /// The implementation for `n < 0` is an adaptation of
    /// [[arxiv:2010.09860]].
    ///
    /// [arxiv:2010.09860]: https://arxiv.org/abs/2010.09860
    fn li(&self, n: i32) -> Complex<f64> {
        cli(n, *self)
    }
}

impl Li<f64> for f64 {
    /// Returns the real n-th order polylogarithm of a real number of
    /// type `f64` for all integers `n`.
    ///
    /// The implementation for `n < 0` is an adaptation of
    /// [[arxiv:2010.09860]].
    ///
    /// [arxiv:2010.09860]: https://arxiv.org/abs/2010.09860
    fn li(&self, n: i32) -> f64 {
        rli(n, *self)
    }
}

/// returns real n-th order polylogarithm Re[Li(n,x)] for real x
fn rli(n: i32, x: f64) -> f64 {
    // transform x to y in [-1,1]
    let (y, rest, sgn) = match polylog::li::rli::rli(n, bits(x)) {
        RealPlan::Exact(v) => return float(v),
        RealPlan::NegativeOrder => {
            // arXiv:2010.09860
            let c = 4.0*std::f64::consts::PI*std::f64::consts::PI;
            let l2 = ln_sqr(x);
            return match negative_order(bits(c*x*x), bits(l2)) {
                NegativeOrder::Series => li_series(n, x),
                NegativeOrder::NearUnity => li_unity_neg(n, Complex::new(x, 0.0)).re,
                NegativeOrder::Far => float(odd_sgn(n))*li_series(n, x.recip()),
            }
        }
        RealPlan::MinusOne => return x/((1.0 - x)*(1.0 - x)),
        RealPlan::Fixed { order } => return match order {
            0 => x.li0(),
            1 => x.li1(),
            2 => x.li2(),
            3 => x.li3(),
            _ => x.li4(),
        },
        RealPlan::BelowMinusOne => (x.recip(), li_neg_rest(n, x), float(odd_sgn(n))),
        RealPlan::Inside => (x, 0.0, 1.0),
        RealPlan::AboveOne => (x.recip(), li_pos_rest(n, x), float(odd_sgn(n))),
    };

    let li = match real_series(n, bits(y)) {
        RealSeries::NearUnity => li_unity_pos(n, y),
        RealSeries::Power => li_series(n, y),
    };

    rest + sgn*li
}

/// returns |ln(x)|^2 for all x
fn ln_sqr(x: f64) -> f64 {
    match polylog::li::rli::ln_sqr(bits(x)) {
        LogSquare::WithPhase => {
            let l = (-x).ln();
            l*l + std::f64::consts::PI*std::f64::consts::PI
        }
        LogSquare::Undefined => std::f64::NAN,
        LogSquare::Plain => {
            let l = x.ln();
            l*l
        }
    }
}

/// returns r.h.s. of inversion formula for x < -1:
///
/// Li(n,-x) + (-1)^n Li(n,-1/x)
///    = -ln(n,x)^n/n! + 2 sum(r=1:(n÷2), ln(x)^(n-2r)/(n-2r)! Li(2r,-1))
// Floating point throughout: the powers of the logarithm are accumulated in
// doubles, and the library supplies the coefficients and the stop rule.
fn li_neg_rest(n: i32, x: f64) -> f64 {
    let l = (-x).ln();
    let l2 = l*l;
    let terms = rest_terms(n);

    let mut sum = 0.0;
    let mut p = if is_even(n) { 1.0 } else { l }; // collects l^(n - 2k)
    for k in (1..=terms).rev() {
        let t = match rest_term(n, k) {
            Some(t) => t,
            None => break,
        };
        let term = p*float(t.inv_fac)*float(t.eta);
        let new_sum = sum + term;
        match real_step(bits(sum), bits(term), bits(new_sum)) {
            RealStep::Stop(s) => { sum = float(s); break; }
            RealStep::Continue => { sum = new_sum; }
        }
        p *= l2;
    }
    2.0*sum - p*float(inv_fac(n))
}

/// returns (sin((2n+1)x), cos((2n+1)x)), given
/// (sn, cn) = (sin(2nx), cos(2nx))   (previous value)
/// (s2, c2) = (sin(2x), sin(2x))     (initial value)
// Floating point throughout: the angle addition formulas in doubles.
fn next_cosi((sn, cn): (f64, f64), (s2, c2): (f64, f64)) -> (f64, f64) {
    (sn*c2 + cn*s2, cn*c2 - sn*s2)
}

/// returns r.h.s. of inversion formula for x > 1;
/// same expression as in li_neg_rest(n,x), but with
/// complex logarithm ln(-x)
// Floating point throughout: modulus and phase of the powers of ln(-x) are
// accumulated in doubles, and the library supplies the coefficients and the
// stop rule.
fn li_pos_rest(n: i32, x: f64) -> f64 {
    let pi = std::f64::consts::PI;
    let l = x.ln();
    let mag = l.hypot(pi); // |ln(-x)|
    let arg = pi.atan2(l); // arg(ln(-x))
    let l2 = mag*mag;      // |ln(-x)|^2
    let terms = rest_terms(n);

    let mut sum = 0.0;
    // p collects mag^(n - 2k),
    // cosi collects (sin((n - 2k)*arg), cos((n - 2k)*arg))
    let (mut p, mut cosi, cosi2) = if is_even(n) {
        (1.0, (0.0, 1.0), (2.0*arg).sin_cos())
    } else {
        let (s, c) = arg.sin_cos();
        (mag, (s, c), (2.0*s*c, 2.0*c*c - 1.0)) // (2.0*arg).sin_cos()
    };
    for k in (1..=terms).rev() {
        let t = match rest_term(n, k) {
            Some(t) => t,
            None => break,
        };
        let term = p*cosi.1*float(t.inv_fac)*float(t.eta);
        let new_sum = sum + term;
        match real_step(bits(sum), bits(term), bits(new_sum)) {
            RealStep::Stop(s) => { sum = float(s); break; }
            RealStep::Continue => { sum = new_sum; }
        }
        p *= l2;
        cosi = next_cosi(cosi, cosi2);
    }
    2.0*sum - p*cosi.1*float(inv_fac(n))
}

/// returns Li(n,x) using the series expansion of Li(n,x) for n > 0
/// and real x ~ 1 where 0 < x < 1:
///
/// Li(n,x) = sum(j=0:Inf, zeta(n-j) ln(x)^j/j!)
///
/// where
///
/// zeta(1) = -ln(-ln(x)) + harmonic(n - 1)
///
/// harmonic(n) = sum(k=1:n, 1/k)
// Floating point throughout: the series is accumulated in doubles, and the
// library supplies the coefficients and the stop rule.
fn li_unity_pos(n: i32, x: f64) -> f64 {
    let l = x.ln();
    let mut sum = float(zeta(n));
    let mut p = 1.0; // collects l^j/j!

    for j in 1..(n - 1) {
        p *= l/(j as f64);
        sum += float(zeta(n - j))*p;
    }

    p *= l/((n - 1) as f64);
    sum += (harmonic(n - 1) - (-l).ln())*p;

    p *= l/(n as f64);
    sum += float(zeta(0))*p;

    p *= l/((n + 1) as f64);
    sum += float(zeta(-1))*p;

    let l2 = l*l;

    for j in ((n + 3)..i32::MAX).step_by(2) {
        p *= l2/(((j - 1) as f64)*(j as f64));
        let term = float(zeta(n - j))*p;
        let new_sum = sum + term;
        match real_step(bits(sum), bits(term), bits(new_sum)) {
            RealStep::Stop(s) => { sum = float(s); break; }
            RealStep::Continue => { sum = new_sum; }
        }
    }

    sum
}

/// returns Li(n,x) using the series expansion for n < 0 and x ~ 1
///
/// Li(n,x) = gamma(1-n) (-ln(x))^(n-1)
///           + sum(k=0:Inf, zeta(n-k) ln(x)^k/k!)
// Floating point throughout: the series is accumulated in complex doubles,
// and the library supplies the coefficients and the stop rule.
fn li_unity_neg(n: i32, z: Complex<f64>) -> Complex<f64> {
    let lnz = z.cln();
    let lnz2 = lnz*lnz;
    let mut sum = float(fac(-n))*(-lnz).powi(n - 1);
    let (mut k, mut lnzk) = if is_even(n) {
        (1, lnz)
    } else {
        sum += float(zeta(n));
        (2, lnz2)
    };

    loop {
        let term = float(zeta(n - k))*float(inv_fac(k))*lnzk;
        let new_sum = sum + term;
        match complex_step(cbits(sum), cbits(term), cbits(new_sum)) {
            ComplexStep::Stop(s) => { sum = cfloat(s); break; }
            ComplexStep::Continue => { sum = new_sum; }
        }
        if k >= i32::MAX - 2 { break; }
        lnzk *= lnz2;
        k += 2;
    }

    sum
}

/// returns Li(n,x) using the naive series expansion of Li(n,x)
/// for |x| < 1:
///
/// Li(n,x) = sum(k=1:Inf, x^k/k^n)
// Floating point throughout: the series is accumulated in doubles, and the
// library supplies the stop rule.
fn li_series(n: i32, x: f64) -> f64
{
    let mut sum = x;
    let mut xn = x*x;

    for k in 2..i32::MAX {
        let term = xn/(k as f64).powi(n);
        let new_sum = sum + term;
        match real_step(bits(sum), bits(term), bits(new_sum)) {
            RealStep::Stop(s) => { sum = float(s); break; }
            RealStep::Continue => { sum = new_sum; }
        }
        xn *= x;
    }

    sum
}

/// returns complex n-th order polylogarithm Li(n,z) for complex z
fn cli(n: i32, z: Complex<f64>) -> Complex<f64> {
    match polylog::li::cli::cli(n, cbits(z)) {
        ComplexPlan::Exact(v) => cfloat(v),
        ComplexPlan::NegativeOrder => {
            // arXiv:2010.09860
            let c = 4.0*std::f64::consts::PI*std::f64::consts::PI;
            let l2 = z.cln().norm_sqr();
            match negative_order(bits(c*z.norm_sqr()), bits(l2)) {
                NegativeOrder::Series => cli_series(n, z),
                NegativeOrder::NearUnity => li_unity_neg(n, z),
                NegativeOrder::Far => {
                    let sqrtz = z.sqrt();
                    2.0_f64.powi(n - 1)*(cli(n, sqrtz) + cli(n, -sqrtz))
                }
            }
        }
        ComplexPlan::MinusOne => z/((1.0 - z)*(1.0 - z)),
        ComplexPlan::Fixed { order } => match order {
            0 => z.li0(),
            1 => z.li1(),
            2 => z.li2(),
            3 => z.li3(),
            4 => z.li4(),
            5 => z.li5(),
            _ => z.li6(),
        },
        ComplexPlan::HighOrder => match high_order(bits(z.norm_sqr())) {
            HighOrder::Series => cli_series(n, z),
            HighOrder::Inversion => float(odd_sgn(n))*cli_series(n, 1.0/z) + li_rest(n, z),
            HighOrder::NearUnity => cli_unity_pos(n, z),
        },
    }
}

/// returns r.h.s. of inversion formula for complex z
///
/// Li(n,-z) + (-1)^n Li(n,-1/z)
///    = -ln(n,z)^n/n! + 2 sum(k=1:(n÷2), ln(z)^(n-2k)/(n-2k)! Li(2k,-1))
// Floating point throughout: the powers of the logarithm are accumulated in
// complex doubles, and the library supplies the coefficients and the sign
// that all later terms are negligible.
fn li_rest(n: i32, z: Complex<f64>) -> Complex<f64> {
    let lnz = (-z).cln();
    let lnz2 = lnz*lnz;
    let mut p = if is_even(n) { Complex::new(1.0, 0.0) } else { lnz };
    let mut sum = Complex::new(0.0, 0.0);

    for k in (1..=rest_terms(n)).rev() {
        let t = match rest_term(n, k) {
            Some(t) => t,
            None => return 2.0*sum,
        };
        sum += float(t.eta)*float(t.inv_fac)*p;
        p *= lnz2;
    }

    2.0*sum - p*float(inv_fac(n))
}

/// returns Li(n,z) using the series expansion of Li(n,z) for n > 0
/// and complex z ~ 1:
///
/// Li(n,z) = sum(j=0:Inf, zeta(n-j) ln(z)^j/j!)
///
/// where
///
/// zeta(1) = -ln(-ln(z)) + harmonic(n - 1)
///
/// harmonic(n) = sum(k=1:n, 1/k)
// Floating point throughout: the series is accumulated in complex doubles,
// and the library supplies the coefficients and the stop rule.
fn cli_unity_pos(n: i32, z: Complex<f64>) -> Complex<f64> {
    let l = z.cln();
    let mut sum = Complex::new(float(zeta(n)), 0.0);
    let mut p = Complex::new(1.0, 0.0); // collects l^j/j!

    for j in 1..(n - 1) {
        p *= l/(j as f64);
        let term = float(zeta(n - j))*p;
        let new_sum = sum + term;
        match complex_step(cbits(sum), cbits(term), cbits(new_sum)) {
            ComplexStep::Stop(s) => { sum = cfloat(s); break; }
            ComplexStep::Continue => { sum = new_sum; }
        }
    }

    p *= l/((n - 1) as f64);
    sum += (harmonic(n - 1) - (-l).cln())*p;

    p *= l/(n as f64);
    sum += float(zeta(0))*p;

    p *= l/((n + 1) as f64);
    sum += float(zeta(-1))*p;

    let l2 = l*l;

    for j in ((n + 3)..i32::MAX).step_by(2) {
        p *= l2/(((j - 1) as f64)*(j as f64));
        let term = float(zeta(n - j))*p;
        let new_sum = sum + term;
        match complex_step(cbits(sum), cbits(term), cbits(new_sum)) {
            ComplexStep::Stop(s) => { sum = cfloat(s); break; }
            ComplexStep::Continue => { sum = new_sum; }
        }
    }

    sum
}

/// returns Li(n,x) using the naive series expansion of Li(n,x)
/// for |x| < 1:
///
/// Li(n,x) = sum(k=1:Inf, x^k/k^n)
// Floating point throughout: the series is accumulated in complex doubles,
// and the library supplies the stop rule.
fn cli_series(n: i32, z: Complex<f64>) -> Complex<f64>
{
    let mut sum = z;
    let mut zn = z*z;

    for k in 2..i32::MAX {
        let term = zn/(k as f64).powi(n);
        let new_sum = sum + term;
        match complex_step(cbits(sum), cbits(term), cbits(new_sum)) {
            ComplexStep::Stop(s) => { sum = cfloat(s); break; }
            ComplexStep::Continue => { sum = new_sum; }
        }
        zn *= z;
    }

    sum
}

fn assert_eq_float(a: f64, b: f64, eps: f64) {
    if (a - b).abs() >= eps*(1.0 + a.abs().max(b.abs())) {
        panic!("Numbers differ by more than {}: {} != {}", eps, a, b);
    }
}

fn assert_eq_float_f32(a: f32, b: f32, eps: f32) {
    if (a - b).abs() >= eps*(1.0 + a.abs().max(b.abs())) {
        panic!("Numbers differ by more than {}: {} != {}", eps, a, b);
    }
}

fn assert_eq_complex(a: Complex<f64>, b: Complex<f64>, eps: f64) {
    assert_eq_float(a.re, b.re, eps);
    assert_eq_float(a.im, b.im, eps);
}

// the principal logarithm with the negative zero of either part read as zero
trait Ln0 {
    fn ln0(&self) -> Complex<f64>;
}

impl Ln0 for Complex<f64> {
    fn ln0(&self) -> Complex<f64> {
        Complex::new(
            if self.re == 0. { 0. } else { self.re },
            if self.im == 0. { 0. } else { self.im },
        ).ln()
    }
}

#[test]
fn digamma_test_values() {
    let abs = |x: f64| if x >= 0.0 { x } else { -x };

    assert!(abs(digamma( 1) - -0.57721566490153286) < 1e-14);
    assert!(abs(digamma( 2) -  0.42278433509846714) < 1e-14);
    assert!(abs(digamma( 3) -  0.92278433509846714) < 1e-14);
    assert!(abs(digamma(10) -  2.2517525890667211 ) < 1e-15);
}

#[test]
fn test_digamma() {
    let abs = |x: f64| if x >= 0.0 { x } else { -x };

    assert!(abs(digamma( 1) - -0.57721566490153286) < 1e-14);
    assert!(abs(digamma( 2) -  0.42278433509846714) < 1e-14);
    assert!(abs(digamma( 3) -  0.92278433509846714) < 1e-14);
    assert!(abs(digamma(10) -  2.2517525890667211 ) < 1e-15);
}

#[test]
fn test_harmonic() {
    let abs = |x: f64| if x >= 0.0 { x } else { -x };

    assert!(harmonic(1) == 1.0);
    assert!(harmonic(2) == 3.0/2.0);
    assert!(harmonic(3) == 11.0/6.0);
    assert!(abs(harmonic( 4) - 25.0/12.0         ) < 1e-14);
    assert!(abs(harmonic(19) - 3.5477396571436819) < 1e-14);
    assert!(abs(harmonic(20) - 3.5977396571436819) < 1e-14);
    assert!(abs(harmonic(21) - 3.6453587047627295) < 1e-14);
}

#[test]
fn gamma_is_the_factorial_before() {
    assert!(gamma(1) == 1.0);
    assert!(gamma(5) == 24.0);
    assert!(gamma(171) == 7.257415615307999e306);
    assert!(gamma(172).is_infinite());
}

#[test]
fn li0_values() {
    let eps = 1e-14_f64;

    assert!((2.0_f64.li0() + 2.0_f64).abs() < std::f64::EPSILON);
    assert!((Complex::new(1.0_f64, 1.0_f64).li0() - Complex::new(-1.0_f64, 1.0_f64)).norm() < std::f64::EPSILON);

    assert!(1.0_f64.li0().is_infinite());
    assert!(Complex::new(1.0_f64, 0.0_f64).li0().is_nan());

    // test value that causes overflow if squared
    assert!(!Complex::new(1e300_f64, 1.0_f64).li0().is_infinite());
    assert!(!Complex::new(1.0_f64, 1e300_f64).li0().is_infinite());
    assert_eq_complex(Complex::new(1e300_f64, 1.0_f64).li0(), Complex::new(-1.0_f64, 0.0_f64), eps);
    assert_eq_complex(Complex::new(1.0_f64, 1e300_f64).li0(), Complex::new(-1.0_f64, 0.0_f64), eps);
}

#[test]
fn li0_test_signed_zero() {
    let pz64 = 0.0_f64;
    let nz64 = -0.0_f64;

    assert!(pz64.li0().is_sign_positive());
    assert!(nz64.li0().is_sign_negative());

    assert!(Complex::new(pz64, pz64).li0().re.is_sign_positive());
    assert!(Complex::new(pz64, pz64).li0().im.is_sign_positive());
    assert!(Complex::new(pz64, nz64).li0().re.is_sign_positive());
    assert!(Complex::new(pz64, nz64).li0().im.is_sign_negative());
    assert!(Complex::new(nz64, pz64).li0().re.is_sign_negative());
    assert!(Complex::new(nz64, pz64).li0().im.is_sign_positive());
    assert!(Complex::new(nz64, nz64).li0().re.is_sign_negative());
    assert!(Complex::new(nz64, nz64).li0().im.is_sign_negative());
}

#[test]
fn li1_values() {
    let eps = 1e-14_f64;

    assert!((2.0_f64.li1()).abs() < std::f64::EPSILON);
    assert!((Complex::new(1.0_f64, 1.0_f64).li1() - Complex::new(0.0_f64, 1.5707963267948966_f64)).norm() < std::f64::EPSILON);

    assert!(1.0_f64.li1().is_infinite());
    assert!(Complex::new(1.0_f64, 0.0_f64).li1().is_infinite());

    // test value that causes overflow if squared
    assert!(!Complex::new(1e300_f64, 1.0_f64).li1().is_infinite());
    assert!(!Complex::new(1.0_f64, 1e300_f64).li1().is_infinite());
    assert_eq_complex(Complex::new(1e300_f64, 1.0_f64).li1(), Complex::new(-690.77552789821371_f64, 3.14159265358979_f64), eps);
    assert_eq_complex(Complex::new(1.0_f64, 1e300_f64).li1(), Complex::new(-690.77552789821371_f64, 1.5707963267948966_f64), eps);
}

#[test]
fn li1_test_signed_zero() {
    let pz64 = 0.0_f64;
    let nz64 = -0.0_f64;

    assert!(pz64.li1().is_sign_positive());
    assert!(nz64.li1().is_sign_negative());

    assert!(Complex::new(pz64, pz64).li1().re.is_sign_positive());
    assert!(Complex::new(pz64, pz64).li1().im.is_sign_positive());
    assert!(Complex::new(pz64, nz64).li1().re.is_sign_positive());
    assert!(Complex::new(pz64, nz64).li1().im.is_sign_negative());
    assert!(Complex::new(nz64, pz64).li1().re.is_sign_negative());
    assert!(Complex::new(nz64, pz64).li1().im.is_sign_positive());
    assert!(Complex::new(nz64, nz64).li1().re.is_sign_negative());
    assert!(Complex::new(nz64, nz64).li1().im.is_sign_negative());
}
fn li2_id1(z: Complex<f64>) -> Complex<f64> {
    z.li2() + (-z).li2() - 0.5_f64*(z*z).li2()
}


fn li2_id2(z: Complex<f64>) -> Complex<f64> {
    if z.norm() < std::f64::EPSILON || z.re < 0.0_f64 {
        Complex::new(0.0_f64, 0.0_f64)
    } else {
        (1.0_f64 - z).li2() + (1.0_f64 - 1.0_f64/z).li2() + 0.5_f64*z.ln0().powi(2)
    }
}


fn li2_id3(z: Complex<f64>) -> Complex<f64> {
    let pi = std::f64::consts::PI;

    if z.norm() < 1e-10_f64 || (z.re - 1.0_f64).abs() < 1e-10_f64 {
        Complex::new(0.0_f64, 0.0_f64)
    } else {
        z.li2() + (1.0_f64 - z).li2() - pi.powi(2)/6.0_f64 + z.ln0()*(1.0_f64 - z).ln0()
    }
}


fn li2_id4(z: Complex<f64>) -> Complex<f64> {
    if z.norm() < 1e-10_f64 || (z.re + 1.0_f64).abs() < 1e-10_f64 || z.re < 0.0_f64 || z.im < 0.0_f64 {
        Complex::new(0.0_f64, 0.0_f64)
    } else {
        let pi = std::f64::consts::PI;
        (-z).li2() - (1.0_f64 - z).li2() + 0.5_f64*(1.0_f64 - z*z).li2() + pi.powi(2)/12.0_f64 + z.ln0()*(1.0_f64 + z).ln0()
    }
}


fn li2_id5(z: Complex<f64>) -> Complex<f64> {
    if z.norm() < 1e-10_f64 || (z.re > 0.0_f64 && z.re < 1.0_f64) {
        Complex::new(0.0_f64, 0.0_f64)
    } else {
        let pi = std::f64::consts::PI;
        z.li2() + (1.0_f64/z).li2() + pi.powi(2)/6.0_f64 + 0.5_f64*(-z).ln0().powi(2)
    }
}


#[test]
fn li2_special_values() {
    let pi = std::f64::consts::PI;
    let eps = 1e-15_f64;

    assert_eq_float((-1.0_f64).li2(), -pi.powi(2)/12.0_f64, eps);

    assert_eq_float((0.0_f64).li2(), 0.0_f64, eps);

    assert_eq_float((0.5_f64).li2(), pi.powi(2)/12.0_f64 - 0.5_f64*(2.0_f64.ln()).powi(2), eps);

    assert_eq_float((1.0_f64).li2(), pi.powi(2)/6.0_f64, eps);

    assert_eq_complex(Complex::new(2.0_f64, 0.0_f64).li2(),
                       Complex::new(pi.powi(2)/4.0_f64, 0.0_f64) - Complex::i()*pi*2.0_f64.ln(), eps);

    assert_eq_float((-(5.0_f64.sqrt() - 1.0_f64)/2.0_f64).li2(),
                     -pi.powi(2)/15.0_f64 + 0.5_f64*(((5.0_f64.sqrt() - 1.0_f64)/2.0_f64).ln()).powi(2), eps);

    assert_eq_float((-(5.0_f64.sqrt() + 1.0_f64)/2.0_f64).li2(),
                     -pi.powi(2)/10.0_f64 - (((5.0_f64.sqrt() + 1.0_f64)/2.0_f64).ln()).powi(2), eps);

    assert_eq_float(((3.0_f64 - 5.0_f64.sqrt())/2.0_f64).li2(),
                     pi.powi(2)/15.0_f64 - (((5.0_f64.sqrt() - 1.0_f64)/2.0_f64).ln()).powi(2), eps);

    assert_eq_float(((5.0_f64.sqrt() - 1.0_f64)/2.0_f64).li2(),
                     pi.powi(2)/10.0_f64 - (((5.0_f64.sqrt() - 1.0_f64)/2.0_f64).ln()).powi(2), eps);

    {
        let z = Complex::new(-1.08371e-08_f64, 1.32716e-24_f64);
        let li2 = z.li2();
        let li2_expected = Complex::new(-1.08370999706393160389154078878181e-8_f64, 1.3271599928087172e-24_f64);
        assert_eq!(li2.re, li2_expected.re);
        assert_eq!(li2.im, li2_expected.im);
    }

    // test value that causes overflow if squared
    assert!(!Complex::new(1e300_f64, 1.0_f64).li2().is_infinite());
    assert!(!Complex::new(1.0_f64, 1e300_f64).li2().is_infinite());
    assert_eq_complex(Complex::new(1e300_f64, 1.0_f64).li2(), Complex::new(-238582.12510339421_f64, 2170.13532372464_f64), eps);
    assert_eq_complex(Complex::new(1.0_f64, 1e300_f64).li2(), Complex::new(-238585.82620504462_f64, 1085.06766186232_f64), eps);
}


#[test]
fn special_value_identities() {
    let pi = std::f64::consts::PI;
    let eps = 1e-14_f64;

    assert_eq_float((1.0_f64/3.0_f64).li2() - (1.0_f64/9.0_f64).li2()/6.0_f64,
                     pi.powi(2)/18.0_f64 - ((3.0_f64).ln()).powi(2)/6.0_f64, eps);

    assert_eq_float((-0.5_f64).li2() + (1.0_f64/9.0_f64).li2()/6.0_f64,
                     -pi.powi(2)/18.0_f64 + (2.0_f64).ln()*(3.0_f64).ln()
                     - ((2.0_f64).ln()).powi(2)/2.0_f64 - ((3.0_f64).ln()).powi(2)/3.0_f64, eps);

    assert_eq_float((0.25_f64).li2() + (1.0_f64/9.0_f64).li2()/3.0_f64,
                     pi.powi(2)/18.0_f64 + 2.0_f64*(2.0_f64).ln()*(3.0_f64).ln()
                     - 2.0_f64*((2.0_f64).ln()).powi(2) - 2.0_f64*((3.0_f64).ln()).powi(2)/3.0_f64, eps);

    assert_eq_float((-1.0_f64/3.0_f64).li2() - (1.0_f64/9.0_f64).li2()/3.0_f64,
                     -pi.powi(2)/18.0_f64 + ((3.0_f64).ln()).powi(2)/6.0_f64, eps);

    assert_eq_float((-1.0_f64/8.0_f64).li2() + (1.0_f64/9.0_f64).li2(),
                     - 0.5_f64*((9.0_f64/8.0_f64).ln()).powi(2), eps);

    assert_eq_float(36.0_f64*(0.5_f64).li2() - 36.0_f64*(0.25_f64).li2()
                     - 12.0_f64*(1.0_f64/8.0_f64).li2() + 6.0_f64*(1.0_f64/64.0_f64).li2(),
                     pi.powi(2), 2.0_f64*eps);
}


#[test]
fn li2_identities() {

    let eps = 1e-14_f64;
    let zero = Complex::<f64>::zero();
    let omega = Complex::new(0.5_f64, (3.0_f64).sqrt()/2.0_f64);
    let values = [
        Complex::new(0.0_f64, 0.0_f64),
        Complex::new(0.5_f64, 0.0_f64),
        Complex::new(1.0_f64, 0.0_f64),
        Complex::new(1.5_f64, 0.0_f64),
        Complex::new(-0.0_f64, 0.0_f64),
        Complex::new(-0.5_f64, 0.0_f64),
        Complex::new(-1.0_f64, 0.0_f64),
        Complex::new(-1.5_f64, 0.0_f64),
        Complex::new(-((5.0_f64).sqrt() - 1.0_f64)/2.0_f64, 0.0_f64),
        Complex::new(-((5.0_f64).sqrt() + 1.0_f64)/2.0_f64, 0.0_f64),
        Complex::new(((5.0_f64).sqrt() + 1.0_f64)/2.0_f64, 0.0_f64),
        Complex::new(((5.0_f64).sqrt() + 3.0_f64)/2.0_f64, 0.0_f64),
        omega,
        omega.powi(2),
        1.0_f64 + omega,
        1.0_f64/(1.0_f64 + omega),
    ];

    for v in &values {
        assert_eq_complex(li2_id1(*v), zero, eps);
        assert_eq_complex(li2_id2(*v), zero, eps);
        assert_eq_complex(li2_id3(*v), zero, eps);
        assert_eq_complex(li2_id4(*v), zero, eps);
        assert_eq_complex(li2_id5(*v), zero, eps);
    }
}


#[test]
fn li2_test_signed_zero() {
    let pz32 = 0.0_f32;
    let nz32 = -0.0_f32;
    let pz64 = 0.0_f64;
    let nz64 = -0.0_f64;

    assert!(pz32.li2().is_sign_positive());
    assert!(nz32.li2().is_sign_negative());

    assert!(pz64.li2().is_sign_positive());
    assert!(nz64.li2().is_sign_negative());

    assert!(Complex::new(pz32, pz32).li2().re.is_sign_positive());
    assert!(Complex::new(pz32, pz32).li2().im.is_sign_positive());
    assert!(Complex::new(pz32, nz32).li2().re.is_sign_positive());
    assert!(Complex::new(pz32, nz32).li2().im.is_sign_negative());
    assert!(Complex::new(nz32, pz32).li2().re.is_sign_negative());
    assert!(Complex::new(nz32, pz32).li2().im.is_sign_positive());
    assert!(Complex::new(nz32, nz32).li2().re.is_sign_negative());
    assert!(Complex::new(nz32, nz32).li2().im.is_sign_negative());

    assert!(Complex::new(pz64, pz64).li2().re.is_sign_positive());
    assert!(Complex::new(pz64, pz64).li2().im.is_sign_positive());
    assert!(Complex::new(pz64, nz64).li2().re.is_sign_positive());
    assert!(Complex::new(pz64, nz64).li2().im.is_sign_negative());
    assert!(Complex::new(nz64, pz64).li2().re.is_sign_negative());
    assert!(Complex::new(nz64, pz64).li2().im.is_sign_positive());
    assert!(Complex::new(nz64, nz64).li2().re.is_sign_negative());
    assert!(Complex::new(nz64, nz64).li2().im.is_sign_negative());
}

#[test]
fn li3_special_values() {
    let pi  = std::f64::consts::PI;
    let pi2 = pi*pi;
    let eps = 1e-15_f64;
    let ln2 = 2.0_f64.ln();
    let z3  = 1.202056903159594_f64;
    let phi = 0.5_f64*(5.0_f64.sqrt() + 1.0_f64); // golden ratio
    let zero = Complex::zero();

    assert_eq_complex(zero.li3(), zero, eps);
    assert_eq_complex(Complex::new(1.0_f64, 0.0_f64).li3(),
                       Complex::new(z3, 0.0_f64), eps);
    assert_eq_complex(Complex::new(-1.0_f64, 0.0_f64).li3(),
                       Complex::new(-3.0_f64/4.0_f64*z3, 0.0_f64), eps);
    assert_eq_complex(Complex::new(0.5_f64, 0.0_f64).li3(),
                       Complex::new(ln2.powi(3)/6.0_f64 - pi2/12.0_f64*ln2 + 7.0_f64/8.0_f64*z3, 0.0_f64), eps);
    assert_eq_complex(Complex::new(1.0_f64/(phi*phi), 0.0_f64).li3(),
                       Complex::new(4.0_f64/5.0_f64*z3 + 2.0_f64/3.0_f64*phi.ln().powi(3) - 2.0_f64/15.0_f64*pi2*phi.ln(), 0.0_f64), eps);

    // test value that causes overflow if squared
    assert!(!Complex::new(1e300_f64, 1.0_f64).li3().is_infinite());
    assert!(!Complex::new(1.0_f64, 1e300_f64).li3().is_infinite());
    assert_eq_complex(Complex::new(1e300_f64, 1.0_f64).li3(), Complex::new(-5.4934049431527088e7_f64, 749538.186928224_f64), eps);
    assert_eq_complex(Complex::new(1.0_f64, 1e300_f64).li3(), Complex::new(-5.4936606061973454e7_f64, 374771.031356405_f64), eps);
}


#[test]
fn li3_test_signed_zero() {
    let pz64 = 0.0_f64;
    let nz64 = -0.0_f64;

    assert!(pz64.li3().is_sign_positive());
    assert!(nz64.li3().is_sign_negative());

    assert!(Complex::new(pz64, pz64).li3().re.is_sign_positive());
    assert!(Complex::new(pz64, pz64).li3().im.is_sign_positive());
    assert!(Complex::new(pz64, nz64).li3().re.is_sign_positive());
    assert!(Complex::new(pz64, nz64).li3().im.is_sign_negative());
    assert!(Complex::new(nz64, pz64).li3().re.is_sign_negative());
    assert!(Complex::new(nz64, pz64).li3().im.is_sign_positive());
    assert!(Complex::new(nz64, nz64).li3().re.is_sign_negative());
    assert!(Complex::new(nz64, nz64).li3().im.is_sign_negative());
}

#[test]
fn li4_special_values() {
    let eps = 1e-15_f64;
    let z4  = 1.082323233711138_f64;
    let zero = Complex::zero();

    assert_eq_complex(zero.li4(), zero, eps);
    assert_eq_complex(Complex::<f64>::new(1.0_f64, 0.0_f64).li4(),
                       Complex::<f64>::new(z4, 0.0_f64), eps);
    assert_eq_complex(Complex::<f64>::new(-1.0_f64, 0.0_f64).li4(),
                       Complex::<f64>::new(-7.0_f64/8.0_f64*z4, 0.0_f64), eps);
    assert_eq_complex(Complex::<f64>::new(0.5_f64, 0.0_f64).li4(),
                       Complex::<f64>::new(0.5174790616738994_f64, 0.0_f64), eps);

    // test value that causes overflow if squared
    assert!(!Complex::new(1e300_f64, 1.0_f64).li4().is_infinite());
    assert!(!Complex::new(1.0_f64, 1e300_f64).li4().is_infinite());
    assert_eq_complex(Complex::new(1e300_f64, 1.0_f64).li4(), Complex::new(-9.4863817894708364e9_f64, 1.725875455850714e8_f64), eps);
    assert_eq_complex(Complex::new(1.0_f64, 1e300_f64).li4(), Complex::new(-9.4872648206269765e9_f64, 8.62951114411071e7_f64), eps);
}



#[test]
fn li5_special_values() {
    let eps = 1e-15_f64;
    let z5  = 1.0369277551433699_f64;
    let zero = Complex::zero();

    assert_eq_complex(zero.li5(), zero, eps);
    assert_eq_complex(Complex::<f64>::new(1.0_f64, 0.0_f64).li5(),
                       Complex::<f64>::new(z5, 0.0_f64), eps);
    assert_eq_complex(Complex::<f64>::new(-1.0_f64, 0.0_f64).li5(),
                       Complex::<f64>::new(-15.0_f64/16.0_f64*z5, 0.0_f64), eps);
    assert_eq_complex(Complex::<f64>::new(0.5_f64, 0.0_f64).li5(),
                       Complex::<f64>::new(0.5084005792422687_f64, 0.0_f64), eps);

    // test value that causes overflow if squared
    assert!(!Complex::new(1e300_f64, 1.0_f64).li5().is_infinite());
    assert!(!Complex::new(1.0_f64, 1e300_f64).li5().is_infinite());
    assert_eq_complex(Complex::new(1e300_f64, 1.0_f64).li5(), Complex::new(-1.3105197831948743e12_f64, 2.980481322754618e10_f64), eps);
    assert_eq_complex(Complex::new(1.0_f64, 1e300_f64).li5(), Complex::new(-1.31072310968392418e12_f64, 1.490286896860219e10_f64), eps);
}



#[test]
fn li6_special_values() {
    let eps = 1e-15_f64;
    let z6  = 1.017343061984449_f64;
    let zero = Complex::zero();

    assert_eq_complex(zero.li6(), zero, eps);
    assert_eq_complex(Complex::<f64>::new(1.0_f64, 0.0_f64).li6(),
                       Complex::<f64>::new(z6, 0.0_f64), eps);
    assert_eq_complex(Complex::<f64>::new(-1.0_f64, 0.0_f64).li6(),
                       Complex::<f64>::new(-31.0_f64/32.0_f64*z6, 0.0_f64), eps);
    assert_eq_complex(Complex::<f64>::new(0.5_f64, 0.0_f64).li6(),
                       Complex::<f64>::new(0.5040953978039886_f64, 0.0_f64), eps);

    // test value that causes overflow if squared
    assert!(!Complex::new(1e300_f64, 1.0_f64).li6().is_infinite());
    assert!(!Complex::new(1.0_f64, 1e300_f64).li6().is_infinite());
    assert_eq_complex(Complex::new(1e300_f64, 1.0_f64).li6(), Complex::new(-1.5086876165613597e14_f64, 4.11768711823317e12_f64), 2.0_f64*eps);
    assert_eq_complex(Complex::new(1.0_f64, 1e300_f64).li6(), Complex::new(-1.5090387516918862e14_f64, 2.0589500211678e12_f64), 2.0_f64*eps);
}



#[test]
fn li_values() {
    for n in -10..=100 {
        assert!(std::f64::NAN.li(n).is_nan());
    }

    assert!((1.0_f64.li(10) - 1.0009945751278181_f64).abs() < std::f64::EPSILON);
    assert!((Complex::new(1.0_f64, 1.0_f64).li(10) - Complex::new(0.9999619510320738_f64, 1.0019864330842581_f64)).norm() < 2.0_f64*std::f64::EPSILON);

    // value close to boundary between series 1 and 2 in arXiv:2010.09860
    assert_eq_float((-0.50001_f64).li(-2), -0.074072592582716422_f64, 1e-14_f64);
    assert_eq_complex(Complex::<f64>::new(-0.50001_f64, 0.0_f64).li(-2),
                       Complex::<f64>::new(-0.074072592582716422_f64, 0.0_f64), 1e-14_f64);

    // value sensitive to proper treatment of 0.0 vs -0.0 in imag(z)
    let z = Complex::new(1.5_f64, 0.0_f64);
    assert_eq_complex(z.li(10), Complex::<f64>::new(1.5022603281703005298_f64, -2.56429642116111388671e-9_f64), 1e-14_f64);
    assert_eq_complex((-z).li(10), Complex::<f64>::new(-1.4978556954869267594_f64, 0.0_f64), 1e-14_f64);

    // test value that causes overflow if squared
    assert!(!Complex::new(1e300_f64, 1.0_f64).li(7).is_infinite());
    assert!(!Complex::new(1.0_f64, 1e300_f64).li(7).is_infinite());
    assert_eq_complex(Complex::new(1e300_f64, 1.0_f64).li(7), Complex::new(-1.4886831990993457e16_f64, 4.74066248802866e14_f64), 1e-15_f64);
    assert_eq_complex(Complex::new(1.0_f64, 1e300_f64).li(7), Complex::new(-1.489168315226607e16_f64, 2.3705150998401e14_f64), 1e-5_f64);

    // test non-finite input
    assert!(Complex::new(f64::NAN, f64::NAN).li(7).is_nan());
    assert!(Complex::new(f64::INFINITY, f64::INFINITY).li(7).is_infinite());
}



#[test]
fn li_test_signed_zero() {
    let pz64 = 0.0_f64;
    let nz64 = -0.0_f64;

    for n in (-100..100).into_iter() {
        assert!(pz64.li(n).is_sign_positive());
        assert!(nz64.li(n).is_sign_negative());

        assert!(Complex::new(pz64, pz64).li(n).re.is_sign_positive());
        assert!(Complex::new(pz64, pz64).li(n).im.is_sign_positive());
        assert!(Complex::new(pz64, nz64).li(n).re.is_sign_positive());
        assert!(Complex::new(pz64, nz64).li(n).im.is_sign_negative());
        assert!(Complex::new(nz64, pz64).li(n).re.is_sign_negative());
        assert!(Complex::new(nz64, pz64).li(n).im.is_sign_positive());
        assert!(Complex::new(nz64, nz64).li(n).re.is_sign_negative());
        assert!(Complex::new(nz64, nz64).li(n).im.is_sign_negative());
    }
}
