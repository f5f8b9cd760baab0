//! IEEE 754 binary64 numbers as bit patterns.
//!
//! A `Binary64` holds the 64 bits of a double: one sign bit, eleven exponent
//! bits and fifty-two fraction bits. Every number that is not a NaN has an
//! exact mathematical value; this module models it as the integer
//! `scaled() = value * 2^1074`, extends that scale to the two infinities, and
//! proves that the comparisons computed on the bits agree with the order of
//! those integers.
use vstd::arithmetic::power2::{
    lemma2_to64, lemma2_to64_rest, lemma_pow2_adds, lemma_pow2_pos, lemma_pow2_strictly_increases,
    lemma_pow2_unfold, pow2,
};
use vstd::prelude::*;

verus! {

/// The sign bit.
pub const SIGN_BIT: u64 = 0x8000_0000_0000_0000;

/// The bits of positive infinity: all exponent bits set, no fraction bit.
pub const INFINITY_BITS: u64 = 0x7ff0_0000_0000_0000;

/// Two to the power 52: the weight of the implicit leading bit of a normal
/// number, counted in units of the last fraction bit.
pub const HIDDEN_BIT: u64 = 0x0010_0000_0000_0000;

/// The bits of positive zero.
pub const ZERO: u64 = 0;

/// The bits of 1/2.
pub const HALF: u64 = 0x3fe0_0000_0000_0000;

/// The bits of -1/2.
pub const NEG_HALF: u64 = 0xbfe0_0000_0000_0000;

/// The bits of 1.
pub const ONE: u64 = 0x3ff0_0000_0000_0000;

/// The bits of -1.
pub const NEG_ONE: u64 = 0xbff0_0000_0000_0000;

/// The bits of 2.
pub const TWO: u64 = 0x4000_0000_0000_0000;

/// The bits of negative infinity.
pub const NEG_INFINITY_BITS: u64 = 0xfff0_0000_0000_0000;

/// The bits of the default quiet NaN.
pub const NAN_BITS: u64 = 0x7ff8_0000_0000_0000;

/// A binary64 number, given by its bits.
#[derive(Clone, Copy, Debug, PartialEq, Eq, Structural)]
pub struct Binary64 {
    pub bits: u64,
}

/// The number with the given bits.
pub open spec fn b64_spec(bits: u64) -> Binary64 {
    Binary64 { bits }
}

/// The number with the given bits.
#[verifier::when_used_as_spec(b64_spec)]
pub fn b64(bits: u64) -> (x: Binary64)
    ensures
        x == b64_spec(bits),
{
    Binary64 { bits }
}

/// The magnitude, in units of 2^-1074, that the exponent field `e` and the
/// fraction field `f` encode.
pub open spec fn field_magnitude(e: nat, f: nat) -> nat {
    if e == 0 {
        f
    } else {
        (HIDDEN_BIT as nat + f) * pow2((e - 1) as nat)
    }
}

/// An encoding with exponent field `e` lies in the binade of `e`: below
/// 2^52 for `e == 0`, and in `[2^52 * 2^(e-1), 2^52 * 2^e)` otherwise.
pub proof fn lemma_field_magnitude_binade(e: nat, f: nat)
    requires
        f < HIDDEN_BIT,
    ensures
        field_magnitude(e, f) < HIDDEN_BIT * pow2(e),
        e >= 1 ==> HIDDEN_BIT * pow2((e - 1) as nat) <= field_magnitude(e, f),
{
    lemma_pow2_pos(e);
    if e == 0 {
        assert(pow2(0) == 1) by {
            lemma2_to64();
        }
        assert(HIDDEN_BIT * pow2(0) == HIDDEN_BIT);
    } else {
        let p = pow2((e - 1) as nat);
        let h = HIDDEN_BIT as nat;
        lemma_pow2_pos((e - 1) as nat);
        lemma_pow2_unfold(e);
        assert(pow2(e) == 2 * p);
        assert((h + f) * p < h * (2 * p) && h * p <= (h + f) * p) by (nonlinear_arith)
            requires
                f < h,
                p > 0,
        ;
    }
}

/// The magnitude grows strictly with the pair (exponent field, fraction
/// field) in lexicographic order.
pub proof fn lemma_field_magnitude_increases(e1: nat, f1: nat, e2: nat, f2: nat)
    requires
        f1 < HIDDEN_BIT,
        f2 < HIDDEN_BIT,
        e1 < e2 || (e1 == e2 && f1 < f2),
    ensures
        field_magnitude(e1, f1) < field_magnitude(e2, f2),
{
    let h = HIDDEN_BIT as nat;
    if e1 == e2 {
        if e1 != 0 {
            let p = pow2((e1 - 1) as nat);
            lemma_pow2_pos((e1 - 1) as nat);
            assert((h + f1) * p < (h + f2) * p) by (nonlinear_arith)
                requires
                    f1 < f2,
                    p > 0,
            ;
        }
    } else {
        lemma_field_magnitude_binade(e1, f1);
        lemma_field_magnitude_binade(e2, f2);
        let below = (e2 - 1) as nat;
        if e1 < below {
            lemma_pow2_strictly_increases(e1, below);
        }
        let p1 = pow2(e1);
        let p2 = pow2(below);
        assert(h * p1 <= h * p2) by (nonlinear_arith)
            requires
                p1 <= p2,
        ;
    }
}

impl Binary64 {
    /// Whether the sign bit is set.
    pub open spec fn sign(self) -> bool {
        self.bits >= SIGN_BIT
    }

    /// The bits without the sign bit.
    pub open spec fn abs_bits(self) -> nat {
        if self.bits >= SIGN_BIT {
            (self.bits - SIGN_BIT) as nat
        } else {
            self.bits as nat
        }
    }

    /// The exponent field, from 0 to 2047.
    pub open spec fn exponent(self) -> nat {
        self.abs_bits() / (HIDDEN_BIT as nat)
    }

    /// The fraction field, below 2^52.
    pub open spec fn fraction(self) -> nat {
        self.abs_bits() % (HIDDEN_BIT as nat)
    }

    /// Not a number: all exponent bits set and a fraction bit set.
    pub open spec fn nan(self) -> bool {
        self.abs_bits() > INFINITY_BITS
    }

    /// Positive or negative infinity.
    pub open spec fn infinite(self) -> bool {
        self.abs_bits() == INFINITY_BITS
    }

    /// Zero, subnormal or normal.
    pub open spec fn finite(self) -> bool {
        self.abs_bits() < INFINITY_BITS
    }

    /// Positive or negative zero.
    pub open spec fn zero(self) -> bool {
        self.abs_bits() == 0
    }

    /// The absolute value in units of 2^-1074. An infinity counts as 2^2098,
    /// which is above every finite magnitude.
    pub open spec fn magnitude(self) -> nat {
        field_magnitude(self.exponent(), self.fraction())
    }

    /// The significand in units of the last place: the fraction field,
    /// with the implicit leading bit of a normal number.
    pub open spec fn significand(self) -> nat {
        if self.exponent() == 0 {
            self.fraction()
        } else {
            HIDDEN_BIT as nat + self.fraction()
        }
    }

    /// The exponent of the unit in the last place, counted from 2^-1074:
    /// zero for a subnormal number, as for the least normal ones.
    pub open spec fn scale(self) -> nat {
        if self.exponent() == 0 {
            0
        } else {
            (self.exponent() - 1) as nat
        }
    }

    /// The unit in the last place in units of 2^-1074: the distance from
    /// this number to the next one of larger magnitude.
    pub open spec fn ulp(self) -> nat {
        pow2(self.scale())
    }

    /// The value in units of 2^-1074; meaningful for every number that is
    /// not a NaN. A finite number has the value `scaled() / 2^1074`.
    pub open spec fn scaled(self) -> int {
        if self.sign() {
            -(self.magnitude() as int)
        } else {
            self.magnitude() as int
        }
    }

    /// `self < other` as IEEE 754 defines it: false if either is a NaN.
    pub open spec fn lt_spec(self, other: Binary64) -> bool {
        !self.nan() && !other.nan() && self.scaled() < other.scaled()
    }

    /// `self <= other` as IEEE 754 defines it: false if either is a NaN.
    pub open spec fn le_spec(self, other: Binary64) -> bool {
        !self.nan() && !other.nan() && self.scaled() <= other.scaled()
    }

    /// `self == other` as IEEE 754 defines it: false if either is a NaN, and
    /// true of the two zeros.
    pub open spec fn same_value_spec(self, other: Binary64) -> bool {
        !self.nan() && !other.nan() && self.scaled() == other.scaled()
    }

    /// The magnitude is the significand in units of the last place.
    pub proof fn lemma_magnitude_in_ulps(self)
        ensures
            self.magnitude() == self.significand() * self.ulp(),
            self.ulp() >= 1,
    {
        lemma_pow2_pos(self.scale());
        if self.exponent() == 0 {
            assert(pow2(0) == 1) by {
                lemma2_to64();
            }
            assert(self.fraction() * 1 == self.fraction());
        }
    }

    /// The order of the magnitudes is the order of the bits without the sign.
    pub proof fn lemma_magnitude_order(self, other: Binary64)
        ensures
            (self.abs_bits() < other.abs_bits()) == (self.magnitude() < other.magnitude()),
            (self.abs_bits() == other.abs_bits()) == (self.magnitude() == other.magnitude()),
            self.zero() == (self.magnitude() == 0),
    {
        let (e1, f1) = (self.exponent(), self.fraction());
        let (e2, f2) = (other.exponent(), other.fraction());
        if self.abs_bits() < other.abs_bits() {
            lemma_field_magnitude_increases(e1, f1, e2, f2);
        } else if other.abs_bits() < self.abs_bits() {
            lemma_field_magnitude_increases(e2, f2, e1, f1);
        }
        if !self.zero() {
            lemma_field_magnitude_increases(0, 0, e1, f1);
        }
    }

    /// Whether the sign bit is set, also of a zero or a NaN.
    #[verifier::when_used_as_spec(sign)]
    pub fn is_sign_negative(self) -> (negative: bool)
        ensures
            negative == self.sign(),
    {
        self.bits >= SIGN_BIT
    }

    /// The bits with the sign bit cleared.
    pub fn magnitude_bits(self) -> (m: u64)
        ensures
            m == self.abs_bits(),
            m < SIGN_BIT,
    {
        if self.bits >= SIGN_BIT {
            self.bits - SIGN_BIT
        } else {
            self.bits
        }
    }

    /// Whether this is a NaN.
    #[verifier::when_used_as_spec(nan)]
    pub fn is_nan(self) -> (r: bool)
        ensures
            r == self.nan(),
    {
        self.magnitude_bits() > INFINITY_BITS
    }

    /// Whether this is positive or negative infinity.
    #[verifier::when_used_as_spec(infinite)]
    pub fn is_infinite(self) -> (r: bool)
        ensures
            r == self.infinite(),
    {
        self.magnitude_bits() == INFINITY_BITS
    }

    /// Whether this is neither infinite nor a NaN.
    #[verifier::when_used_as_spec(finite)]
    pub fn is_finite(self) -> (r: bool)
        ensures
            r == self.finite(),
    {
        self.magnitude_bits() < INFINITY_BITS
    }

    /// Whether this is a zero of either sign, that is, equal to zero as
    /// IEEE 754 compares.
    #[verifier::when_used_as_spec(zero)]
    pub fn is_zero(self) -> (r: bool)
        ensures
            r == self.zero(),
            r == self.same_value_spec(b64(ZERO)),
    {
        proof {
            self.lemma_magnitude_order(b64(ZERO));
        }
        self.magnitude_bits() == 0
    }

    /// IEEE 754 `<`.
    #[verifier::when_used_as_spec(lt_spec)]
    pub fn lt(self, other: Binary64) -> (r: bool)
        ensures
            r == self.lt_spec(other),
    {
        proof {
            self.lemma_magnitude_order(other);
            other.lemma_magnitude_order(self);
        }
        if self.is_nan() || other.is_nan() {
            false
        } else {
            let a = self.magnitude_bits();
            let b = other.magnitude_bits();
            if self.is_sign_negative() {
                if other.is_sign_negative() {
                    b < a
                } else {
                    a != 0 || b != 0
                }
            } else {
                !other.is_sign_negative() && a < b
            }
        }
    }

    /// IEEE 754 `==`.
    #[verifier::when_used_as_spec(same_value_spec)]
    pub fn same_value(self, other: Binary64) -> (r: bool)
        ensures
            r == self.same_value_spec(other),
    {
        proof {
            self.lemma_magnitude_order(other);
            other.lemma_magnitude_order(self);
        }
        if self.is_nan() || other.is_nan() {
            false
        } else {
            let a = self.magnitude_bits();
            let b = other.magnitude_bits();
            if self.is_sign_negative() == other.is_sign_negative() {
                a == b
            } else {
                a == 0 && b == 0
            }
        }
    }

    /// IEEE 754 `<=`.
    #[verifier::when_used_as_spec(le_spec)]
    pub fn le(self, other: Binary64) -> (r: bool)
        ensures
            r == self.le_spec(other),
    {
        self.lt(other) || self.same_value(other)
    }

    /// The exact double of a number, as IEEE 754 multiplication by two
    /// gives it: the sign stays, a NaN stays a NaN, and the magnitude doubles
    /// unless that reaches the magnitude of infinity, in which case the
    /// result is infinite.
    pub fn twice(self) -> (r: Binary64)
        ensures
            r.sign() == self.sign(),
            r.nan() == self.nan(),
            !self.nan() ==> r.magnitude() == if 2 * self.magnitude() < b64(INFINITY_BITS).magnitude() {
                2 * self.magnitude()
            } else {
                b64(INFINITY_BITS).magnitude()
            },
    {
        let m = self.magnitude_bits();
        let e = m / HIDDEN_BIT;
        let doubled: u64 = if e == 0 {
            2 * m
        } else if e < 2046 {
            m + HIDDEN_BIT
        } else if e == 2046 {
            INFINITY_BITS
        } else {
            m
        };
        let r = if self.bits >= SIGN_BIT {
            Binary64 { bits: doubled + SIGN_BIT }
        } else {
            Binary64 { bits: doubled }
        };
        proof {
            let f = self.fraction();
            let inf = b64(INFINITY_BITS);
            assert(inf.exponent() == 2047 && inf.fraction() == 0);
            assert(r.abs_bits() == doubled);
            if e == 0 {
                assert(pow2(0) == 1) by {
                    lemma2_to64();
                }
                if 2 * f >= HIDDEN_BIT {
                    assert(r.exponent() == 1 && r.fraction() == 2 * f - HIDDEN_BIT);
                } else {
                    assert(r.exponent() == 0 && r.fraction() == 2 * f);
                }
                lemma_field_magnitude_binade(0, f);
                lemma_field_magnitude_increases(1, 0, 2047, 0);
                assert(field_magnitude(1, 0) == HIDDEN_BIT * pow2(0));
                assert(2 * self.magnitude() < 2 * HIDDEN_BIT);
                lemma_field_magnitude_increases(2, 0, 2047, 0);
                lemma_pow2_unfold(1);
                assert(field_magnitude(2, 0) == HIDDEN_BIT * pow2(1));
                assert(HIDDEN_BIT * pow2(1) == 2 * HIDDEN_BIT) by (nonlinear_arith)
                    requires
                        pow2(1) == 2,
                ;
            } else if e <= 2046 {
                let p = pow2((e - 1) as nat);
                let h = HIDDEN_BIT as nat;
                lemma_pow2_unfold(e as nat);
                assert(pow2(e as nat) == 2 * p);
                assert((h + f) * (2 * p) == 2 * ((h + f) * p)) by (nonlinear_arith);
                assert(field_magnitude((e + 1) as nat, f) == 2 * self.magnitude());
                if e < 2046 {
                    assert(r.exponent() == e + 1 && r.fraction() == f);
                    lemma_field_magnitude_increases((e + 1) as nat, f, 2047, 0);
                } else {
                    assert(h * (2 * p) <= (h + f) * (2 * p)) by (nonlinear_arith)
                        requires
                            p >= 0,
                            f >= 0,
                    ;
                }
            } else {
                if !self.nan() {
                    assert(self.abs_bits() == INFINITY_BITS);
                }
            }
        }
        r
    }

    /// IEEE 754 `>`.
    pub fn gt(self, other: Binary64) -> (r: bool)
        ensures
            r == other.lt_spec(self),
    {
        other.lt(self)
    }

    /// IEEE 754 `>=`.
    pub fn ge(self, other: Binary64) -> (r: bool)
        ensures
            r == other.le_spec(self),
    {
        other.le(self)
    }
}

/// A positive number whose fraction field is zero and whose exponent field is
/// `e` is the power of two `2^(e - 1023)`: its scaled value is `2^(e + 51)`.
pub proof fn lemma_power_of_two(x: Binary64, e: nat)
    requires
        1 <= e <= 2047,
        x.bits == e * HIDDEN_BIT,
    ensures
        x.scaled() == pow2(e + 51),
{
    lemma2_to64_rest();
    assert(HIDDEN_BIT == pow2(52));
    assert(x.exponent() == e && x.fraction() == 0);
    lemma_pow2_adds(52, (e - 1) as nat);
}

/// A positive normal number `x` below 2 and the number 1, both in units of
/// the last place of `x`: the first is the significand `sig` of `x`, and the
/// second is `unit`, the power of two by which the exponent of `x` lies
/// below that of `2^52`.
pub proof fn lemma_against_one(x: Binary64, sig: nat, unit: nat)
    requires
        !x.sign(),
        1 <= x.exponent() <= 1075,
        sig == HIDDEN_BIT + x.fraction(),
        unit == pow2((1075 - x.exponent()) as nat),
    ensures
        x.scaled() == sig * x.ulp(),
        pow2(1074) == unit * x.ulp(),
{
    lemma_pow2_adds((1075 - x.exponent()) as nat, (x.exponent() - 1) as nat);
}

/// The thresholds at which the evaluators change formulas stand in the
/// order of their values: -1 < 0 < 1/2 < 1 < 2 < infinity.
pub proof fn lemma_threshold_order()
    ensures
        b64(NEG_INFINITY_BITS).lt_spec(b64(NEG_ONE)),
        b64(NEG_ONE).lt_spec(b64(ZERO)),
        b64(ZERO).lt_spec(b64(HALF)),
        b64(HALF).lt_spec(b64(ONE)),
        b64(ONE).lt_spec(b64(TWO)),
        b64(TWO).lt_spec(b64(INFINITY_BITS)),
{
    b64(NEG_ONE).lemma_magnitude_order(b64(NEG_INFINITY_BITS));
    b64(NEG_ONE).lemma_magnitude_order(b64(ZERO));
    b64(ZERO).lemma_magnitude_order(b64(HALF));
    b64(HALF).lemma_magnitude_order(b64(ONE));
    b64(ONE).lemma_magnitude_order(b64(TWO));
    b64(TWO).lemma_magnitude_order(b64(INFINITY_BITS));
}

/// The values of the thresholds that are powers of two, in units of
/// 2^-1074: 1/2, 1 and 2, and the two signs of 1.
pub proof fn lemma_threshold_values()
    ensures
        b64(ZERO).scaled() == 0,
        b64(HALF).scaled() == pow2(1073),
        b64(ONE).scaled() == pow2(1074),
        b64(NEG_ONE).scaled() == -(pow2(1074) as int),
        b64(TWO).scaled() == pow2(1075),
        b64(INFINITY_BITS).scaled() == pow2(2098),
        b64(NEG_INFINITY_BITS).scaled() == -(pow2(2098) as int),
{
    lemma_power_of_two(b64(HALF), 1022);
    lemma_power_of_two(b64(ONE), 1023);
    lemma_power_of_two(b64(TWO), 1024);
    lemma_power_of_two(b64(INFINITY_BITS), 2047);
    assert(b64(NEG_ONE).magnitude() == b64(ONE).magnitude());
    assert(b64(NEG_INFINITY_BITS).magnitude() == b64(INFINITY_BITS).magnitude());
}

} // verus!
