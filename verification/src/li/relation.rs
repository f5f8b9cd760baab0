//! The relation between the tables of zeta and of eta,
//!
//! `eta(n) = (1 - 2^(1-n)) zeta(n)`.
//!
//! The two tables hold rounded values, so the relation holds of them within
//! rounding: the entry of eta differs from the product of the factor and
//! the entry of zeta by less than two units in its last place.
use crate::ieee::{b64, lemma_power_of_two, ONE};
use crate::li::eta::neg_eta_spec;
use crate::li::zeta::zeta_spec;
use vstd::arithmetic::power2::{
    lemma2_to64, lemma2_to64_rest, lemma_pow2_adds, lemma_pow2_pos, lemma_pow2_strictly_increases,
    pow2,
};
use vstd::prelude::*;

verus! {

/// Whether the entries of the two tables at `n` are in the relation, within
/// two units in the last place of the entry of eta. From 2 on both sides
/// are multiplied by `2^(n-1)`, so that they are integers.
pub open spec fn eta_matches_zeta(n: int) -> bool {
    let eta = neg_eta_spec(n);
    let zeta = zeta_spec(n);
    if n >= 2 {
        let power = pow2((n - 1) as nat) as int;
        let gap = eta.magnitude() * power - (power - 1) * zeta.magnitude();
        -2 * power * eta.ulp() < gap < 2 * power * eta.ulp()
    } else {
        let power = pow2((1 - n) as nat) as int;
        let gap = eta.magnitude() - (power - 1) * zeta.magnitude();
        -2 * eta.ulp() < gap < 2 * eta.ulp()
    }
}

/// An entry of the tables from 2 to 54, by the significands of the two
/// numbers, the ratio of their units in the last place and the power
/// `2^(n-1)`.
proof fn lemma_positive_entry(n: nat, sig_eta: nat, sig_zeta: nat, ratio: nat, power: nat)
    requires
        2 <= n <= 54,
        sig_eta == neg_eta_spec(n as int).significand(),
        sig_zeta == zeta_spec(n as int).significand(),
        neg_eta_spec(n as int).scale() <= zeta_spec(n as int).scale(),
        ratio == pow2((zeta_spec(n as int).scale() - neg_eta_spec(n as int).scale()) as nat),
        power == pow2((n - 1) as nat),
        -2 * power < sig_eta * power - (power - 1) * sig_zeta * ratio < 2 * power,
    ensures
        eta_matches_zeta(n as int),
{
    let eta = neg_eta_spec(n as int);
    let zeta = zeta_spec(n as int);
    let unit = eta.ulp() as int;
    let p = power as int;
    let wide = (sig_zeta * ratio) as int;
    let v = sig_eta * p - (p - 1) * wide;
    eta.lemma_magnitude_in_ulps();
    zeta.lemma_magnitude_in_ulps();
    lemma_pow2_adds((zeta.scale() - eta.scale()) as nat, eta.scale());
    assert(zeta.ulp() == ratio * unit);
    assert(sig_zeta * (ratio * unit) == wide * unit) by (nonlinear_arith)
        requires
            wide == sig_zeta * ratio,
    ;
    assert((p - 1) * sig_zeta * ratio == (p - 1) * wide) by (nonlinear_arith)
        requires
            wide == sig_zeta * ratio,
    ;
    assert((sig_eta * unit) * p - (p - 1) * (wide * unit) == v * unit) by (nonlinear_arith)
        requires
            v == sig_eta * p - (p - 1) * wide,
    ;
    assert(-2 * p * unit < v * unit < 2 * p * unit) by (nonlinear_arith)
        requires
            -2 * p < v < 2 * p,
            unit > 0,
    ;
}

/// An entry of the tables at the negative odd order `1 - 2k`. The power
/// `2^(2k)` and the ratio of the units in the last place are both `2^base`
/// or twice that: `pt` and `pe` say which. With `a = sig_eta * pe
/// - sig_zeta * pt` the difference in question is `a * 2^base + sig_zeta`
/// units of zeta, and bounds of `2^base` decide.
proof fn lemma_negative_entry(
    k: nat,
    sig_eta: nat,
    sig_zeta: nat,
    base: nat,
    pe: nat,
    pt: nat,
    a: int,
    floor: nat,
    cap: nat,
)
    requires
        1 <= k <= 109,
        sig_eta == neg_eta_spec(1 - 2 * k).significand(),
        sig_zeta == zeta_spec(1 - 2 * k).significand(),
        sig_zeta > 0,
        zeta_spec(1 - 2 * k).scale() + base <= neg_eta_spec(1 - 2 * k).scale(),
        base <= 2 * k,
        pe == pow2((neg_eta_spec(1 - 2 * k).scale() - zeta_spec(1 - 2 * k).scale() - base) as nat),
        pt == pow2((2 * k - base) as nat),
        a == sig_eta * pe - pt * sig_zeta,
        base < 64 ==> floor == pow2(base) && cap == floor,
        base >= 64 ==> floor == 0x1_0000_0000_0000_0000 && a + 2 * pe >= 0,
        2 * pe - a > 0,
        (2 * pe - a) * floor > sig_zeta,
        base < 64 ==> (a + 2 * pe) * cap + sig_zeta > 0,
    ensures
        eta_matches_zeta(1 - 2 * k),
{
    let n = 1 - 2 * k;
    let eta = neg_eta_spec(n);
    let zeta = zeta_spec(n);
    let unit = zeta.ulp() as int;
    let b = pow2(base) as int;
    let power = pow2((1 - n) as nat) as int;
    let spread = (neg_eta_spec(n).scale() - zeta_spec(n).scale()) as nat;
    eta.lemma_magnitude_in_ulps();
    zeta.lemma_magnitude_in_ulps();
    lemma2_to64_rest();
    lemma_pow2_pos(base);
    if base > 64 {
        lemma_pow2_strictly_increases(64, base);
    }
    assert(b >= floor);
    lemma_pow2_adds(spread, zeta.scale());
    lemma_pow2_adds((spread - base) as nat, base);
    lemma_pow2_adds((2 * k - base) as nat, base);
    assert(power == pt * b);
    assert(pow2(spread) == pe * b);
    let wide = pe * b;
    assert(eta.ulp() == wide * unit);
    // both sides in units of zeta
    assert(sig_eta * (wide * unit) == ((sig_eta * pe) * b) * unit) by (nonlinear_arith)
        requires
            wide == pe * b,
    ;
    assert((pt * b - 1) * (sig_zeta * unit) == ((pt * sig_zeta) * b - sig_zeta) * unit)
        by (nonlinear_arith);
    let gap = a * b + sig_zeta;
    assert(((sig_eta * pe) * b) * unit - ((pt * sig_zeta) * b - sig_zeta) * unit == gap * unit)
        by (nonlinear_arith)
        requires
            gap == a * b + sig_zeta,
            a == sig_eta * pe - pt * sig_zeta,
    ;
    assert(eta.magnitude() - (power - 1) * zeta.magnitude() == gap * unit);
    // the bounds of the difference
    assert(gap < 2 * wide) by (nonlinear_arith)
        requires
            gap == a * b + sig_zeta,
            wide == pe * b,
            2 * pe - a > 0,
            (2 * pe - a) * floor > sig_zeta,
            b >= floor,
    ;
    assert(-2 * wide < gap) by (nonlinear_arith)
        requires
            gap == a * b + sig_zeta,
            wide == pe * b,
            sig_zeta > 0,
            b > 0,
            a + 2 * pe >= 0 || (a + 2 * pe) * b + sig_zeta > 0,
    ;
    assert(-2 * (wide * unit) < gap * unit < 2 * (wide * unit)) by (nonlinear_arith)
        requires
            -2 * wide < gap < 2 * wide,
            unit > 0,
    ;
}

/// The entries of the orders 2 to 11.
proof fn lemma_positive_entries_2_to_11(n: nat)
    requires
        2 <= n <= 11,
    ensures
        eta_matches_zeta(n as int),
{
    lemma2_to64();
    lemma2_to64_rest();
    if n == 2 {
        lemma_positive_entry(2, 0x1a51a6625307d3, 0x1a51a6625307d3, 2, 0x2);
    } else if n == 3 {
        lemma_positive_entry(3, 0x1cd97007680932, 0x133ba004f00621, 2, 0x4);
    } else if n == 4 {
        lemma_positive_entry(4, 0x1e4e17caddba7e, 0x1151322ac7d848, 2, 0x8);
    } else if n == 5 {
        lemma_positive_entry(5, 0x1f1b9aebbbaa02, 0x1097418eca7cce, 2, 0x10);
    } else if n == 6 {
        lemma_positive_entry(6, 0x1f89a271351b65, 0x10470984c09244, 2, 0x20);
    } else if n == 7 {
        lemma_positive_entry(7, 0x1fc3541d58f7f7, 0x102232da14cf38, 2, 0x40);
    } else if n == 8 {
        lemma_positive_entry(8, 0x1fe1240844e59f, 0x1010b36af86397, 2, 0x80);
    } else if n == 9 {
        lemma_positive_entry(9, 0x1ff06373c87d3d, 0x100839f3d816b5, 2, 0x100);
    } else if n == 10 {
        lemma_positive_entry(10, 0x1ff821b3917d17, 0x100412e33a5bba, 2, 0x200);
    } else {
        lemma_positive_entry(11, 0x1ffc0b6063b242, 0x10020631be48b3, 2, 0x400);
    }
}

/// The entries of the orders 12 to 21.
proof fn lemma_positive_entries_12_to_21(n: nat)
    requires
        12 <= n <= 21,
    ensures
        eta_matches_zeta(n as int),
{
    lemma2_to64();
    lemma2_to64_rest();
    if n == 12 {
        lemma_positive_entry(12, 0x1ffe03d433c2db, 0x1001020a5b2cd3, 2, 0x800);
    } else if n == 13 {
        lemma_positive_entry(13, 0x1fff0149247dd7, 0x100080ac9d08bc, 2, 0x1000);
    } else if n == 14 {
        lemma_positive_entry(14, 0x1fff806e5402ea, 0x100040392bcad3, 2, 0x2000);
    } else if n == 15 {
        lemma_positive_entry(15, 0x1fffc024ee9808, 0x10002012f797e2, 2, 0x4000);
    } else if n == 16 {
        lemma_positive_entry(16, 0x1fffe00c59a431, 0x100010064cdeb2, 2, 0x8000);
    } else if n == 17 {
        lemma_positive_entry(17, 0x1ffff004206f38, 0x100008021839b4, 2, 0x10000);
    } else if n == 18 {
        lemma_positive_entry(18, 0x1ffff80160c9e9, 0x10000400b2654e, 2, 0x20000);
    } else if n == 19 {
        lemma_positive_entry(19, 0x1ffffc0075c221, 0x100002003b611f, 2, 0x40000);
    } else if n == 20 {
        lemma_positive_entry(20, 0x1ffffe00274b24, 0x1000010013c594, 2, 0x80000);
    } else {
        lemma_positive_entry(21, 0x1fffff000d1baa, 0x100000800695d6, 2, 0x100000);
    }
}

/// The entries of the orders 22 to 31.
proof fn lemma_positive_entries_22_to_31(n: nat)
    requires
        22 <= n <= 31,
    ensures
        eta_matches_zeta(n as int),
{
    lemma2_to64();
    lemma2_to64_rest();
    if n == 22 {
        lemma_positive_entry(22, 0x1fffff80045f36, 0x1000004002319b, 2, 0x200000);
    } else if n == 23 {
        lemma_positive_entry(23, 0x1fffffc001753c, 0x1000002000bb1e, 2, 0x400000);
    } else if n == 24 {
        lemma_positive_entry(24, 0x1fffffe0007c74, 0x10000010003e5a, 2, 0x800000);
    } else if n == 25 {
        lemma_positive_entry(25, 0x1ffffff000297f, 0x100000080014c7, 2, 0x1000000);
    } else if n == 26 {
        lemma_positive_entry(26, 0x1ffffff8000dd6, 0x100000040006ed, 2, 0x2000000);
    } else if n == 27 {
        lemma_positive_entry(27, 0x1ffffffc00049d, 0x1000000200024f, 2, 0x4000000);
    } else if n == 28 {
        lemma_positive_entry(28, 0x1ffffffe00018a, 0x100000010000c5, 2, 0x8000000);
    } else if n == 29 {
        lemma_positive_entry(29, 0x1fffffff000083, 0x10000000800042, 2, 0x10000000);
    } else if n == 30 {
        lemma_positive_entry(30, 0x1fffffff80002c, 0x10000000400016, 2, 0x20000000);
    } else {
        lemma_positive_entry(31, 0x1fffffffc0000f, 0x10000000200007, 2, 0x40000000);
    }
}

/// The entries of the orders 32 to 41.
proof fn lemma_positive_entries_32_to_41(n: nat)
    requires
        32 <= n <= 41,
    ensures
        eta_matches_zeta(n as int),
{
    lemma2_to64();
    lemma2_to64_rest();
    if n == 32 {
        lemma_positive_entry(32, 0x1fffffffe00005, 0x10000000100003, 2, 0x80000000);
    } else if n == 33 {
        lemma_positive_entry(33, 0x1ffffffff00002, 0x10000000080001, 2, 0x100000000);
    } else if n == 34 {
        lemma_positive_entry(34, 0x1ffffffff80001, 0x10000000040000, 2, 0x200000000);
    } else if n == 35 {
        lemma_positive_entry(35, 0x1ffffffffc0000, 0x10000000020000, 2, 0x400000000);
    } else if n == 36 {
        lemma_positive_entry(36, 0x1ffffffffe0000, 0x10000000010000, 2, 0x800000000);
    } else if n == 37 {
        lemma_positive_entry(37, 0x1fffffffff0000, 0x10000000008000, 2, 0x1000000000);
    } else if n == 38 {
        lemma_positive_entry(38, 0x1fffffffff8000, 0x10000000004000, 2, 0x2000000000);
    } else if n == 39 {
        lemma_positive_entry(39, 0x1fffffffffc000, 0x10000000002000, 2, 0x4000000000);
    } else if n == 40 {
        lemma_positive_entry(40, 0x1fffffffffe000, 0x10000000001000, 2, 0x8000000000);
    } else {
        lemma_positive_entry(41, 0x1ffffffffff000, 0x10000000000800, 2, 0x10000000000);
    }
}

/// The entries of the orders 42 to 51.
proof fn lemma_positive_entries_42_to_51(n: nat)
    requires
        42 <= n <= 51,
    ensures
        eta_matches_zeta(n as int),
{
    lemma2_to64();
    lemma2_to64_rest();
    if n == 42 {
        lemma_positive_entry(42, 0x1ffffffffff800, 0x10000000000400, 2, 0x20000000000);
    } else if n == 43 {
        lemma_positive_entry(43, 0x1ffffffffffc00, 0x10000000000200, 2, 0x40000000000);
    } else if n == 44 {
        lemma_positive_entry(44, 0x1ffffffffffe00, 0x10000000000100, 2, 0x80000000000);
    } else if n == 45 {
        lemma_positive_entry(45, 0x1fffffffffff00, 0x10000000000080, 2, 0x100000000000);
    } else if n == 46 {
        lemma_positive_entry(46, 0x1fffffffffff80, 0x10000000000040, 2, 0x200000000000);
    } else if n == 47 {
        lemma_positive_entry(47, 0x1fffffffffffc0, 0x10000000000020, 2, 0x400000000000);
    } else if n == 48 {
        lemma_positive_entry(48, 0x1fffffffffffe0, 0x10000000000010, 2, 0x800000000000);
    } else if n == 49 {
        lemma_positive_entry(49, 0x1ffffffffffff0, 0x10000000000008, 2, 0x1000000000000);
    } else if n == 50 {
        lemma_positive_entry(50, 0x1ffffffffffff8, 0x10000000000004, 2, 0x2000000000000);
    } else {
        lemma_positive_entry(51, 0x1ffffffffffffc, 0x10000000000002, 2, 0x4000000000000);
    }
}

/// The entries of the orders 52 to 54.
proof fn lemma_positive_entries_52_to_54(n: nat)
    requires
        52 <= n <= 54,
    ensures
        eta_matches_zeta(n as int),
{
    lemma2_to64();
    lemma2_to64_rest();
    if n == 52 {
        lemma_positive_entry(52, 0x1ffffffffffffe, 0x10000000000001, 2, 0x8000000000000);
    } else if n == 53 {
        lemma_positive_entry(53, 0x1fffffffffffff, 0x10000000000001, 2, 0x10000000000000);
    } else {
        lemma_positive_entry(54, 0x1fffffffffffff, 0x10000000000000, 2, 0x20000000000000);
    }
}

/// The entries of the orders `1 - 2k` for `k` from 1 to 10.
proof fn lemma_negative_entries_1_to_10(k: nat)
    requires
        1 <= k <= 10,
    ensures
        eta_matches_zeta(1 - 2 * k),
{
    lemma2_to64();
    lemma2_to64_rest();
    if k == 1 {
        lemma_negative_entry(1, 0x10000000000000, 0x15555555555555, 2, 1, 1, -1501199875790165, 0x4, 0x4);
    } else if k == 2 {
        lemma_negative_entry(2, 0x10000000000000, 0x11111111111111, 4, 1, 1, -300239975158033, 0x10, 0x10);
    } else if k == 3 {
        lemma_negative_entry(3, 0x10000000000000, 0x10410410410410, 6, 1, 1, -71485708370960, 0x40, 0x40);
    } else if k == 4 {
        lemma_negative_entry(4, 0x11000000000000, 0x11111111111111, 8, 1, 1, -18764998447377, 0x100, 0x100);
    } else if k == 5 {
        lemma_negative_entry(5, 0x1f000000000000, 0x1f07c1f07c1f08, 10, 1, 1, -8529544748808, 0x400, 0x400);
    } else if k == 6 {
        lemma_negative_entry(6, 0x15980000000000, 0x15995995995996, 12, 1, 1, -1484273572246, 0x1000, 0x1000);
    } else if k == 7 {
        lemma_negative_entry(7, 0x15550000000000, 0x15555555555555, 14, 1, 1, -366503875925, 0x4000, 0x4000);
    } else if k == 8 {
        lemma_negative_entry(8, 0x1c5e4200000000, 0x1c5e5e5e5e5e5e, 16, 1, 1, -121842327134, 0x10000, 0x10000);
    } else if k == 9 {
        lemma_negative_entry(9, 0x186e7980000000, 0x186e7f9b9fe6e8, 18, 1, 1, -26233267944, 0x40000, 0x40000);
    } else {
        lemma_negative_entry(10, 0x1a74c8aa000000, 0x1a74ca514ca515, 20, 1, 1, -7101785365, 0x100000, 0x100000);
    }
}

/// The entries of the orders `1 - 2k` for `k` from 11 to 20.
proof fn lemma_negative_entries_11_to_20(k: nat)
    requires
        11 <= k <= 20,
    ensures
        eta_matches_zeta(1 - 2 * k),
{
    lemma2_to64();
    lemma2_to64_rest();
    if k == 11 {
        lemma_negative_entry(11, 0x11975c7a900000, 0x11975cc0ed7304, 22, 1, 1, -1180529412, 0x400000, 0x400000);
    } else if k == 12 {
        lemma_negative_entry(12, 0x1c2f054a276000, 0x1c2f0566566566, 24, 1, 1, -472843622, 0x1000000, 0x1000000);
    } else if k == 13 {
        lemma_negative_entry(13, 0x1ac572a3f94e00, 0x1ac572aaaaaaab, 26, 1, 1, -112286891, 0x4000000, 0x4000000);
    } else if k == 14 {
        lemma_negative_entry(14, 0x1dc0b1a3f3b2fc, 0x1dc0b1a5cfbe16, 28, 1, 1, -31197978, 0x10000000, 0x10000000);
    } else if k == 15 {
        lemma_negative_entry(15, 0x131fad7c72bd4a, 0x131fad7cbf3c00, 30, 1, 1, -5013174, 0x40000000, 0x40000000);
    } else if k == 16 {
        lemma_negative_entry(16, 0x1c2805639c94b7, 0x1c280563b8bcbd, 32, 1, 1, -1845254, 0x100000000, 0x100000000);
    } else if k == 17 {
        lemma_negative_entry(17, 0x17892edfd9730a, 0x17892edfdf5556, 34, 1, 1, -385612, 0x400000000, 0x400000000);
    } else if k == 18 {
        lemma_negative_entry(18, 0x162b8b4463ba51, 0x162b8b44651d09, 36, 1, 1, -90808, 0x1000000000, 0x1000000000);
    } else if k == 19 {
        lemma_negative_entry(19, 0x176024c21574aa, 0x176024c215d22a, 38, 1, 1, -23936, 0x4000000000, 0x4000000000);
    } else {
        lemma_negative_entry(20, 0x1b6c0dfed279ef, 0x1b6c0dfed2955b, 40, 1, 1, -7020, 0x10000000000, 0x10000000000);
    }
}

/// The entries of the orders `1 - 2k` for `k` from 21 to 30.
proof fn lemma_negative_entries_21_to_30(k: nat)
    requires
        21 <= k <= 30,
    ensures
        eta_matches_zeta(1 - 2 * k),
{
    lemma2_to64();
    lemma2_to64_rest();
    if k == 21 {
        lemma_negative_entry(21, 0x11cca39b77abb4, 0x11cca39b77b027, 42, 1, 1, -1139, 0x40000000000, 0x40000000000);
    } else if k == 22 {
        lemma_negative_entry(22, 0x197212d8cc0ea9, 0x197212d8cc1040, 44, 1, 1, -407, 0x100000000000, 0x100000000000);
    } else if k == 23 {
        lemma_negative_entry(23, 0x13f0cb06b17dd9, 0x13f0cb06b17e29, 46, 1, 1, -80, 0x400000000000, 0x400000000000);
    } else if k == 24 {
        lemma_negative_entry(24, 0x11101d96823ed0, 0x11101d96823ee1, 48, 1, 1, -17, 0x1000000000000, 0x1000000000000);
    } else if k == 25 {
        lemma_negative_entry(25, 0x1fc474bdd53c18, 0x1fc474bdd53c20, 50, 1, 1, -8, 0x4000000000000, 0x4000000000000);
    } else if k == 26 {
        lemma_negative_entry(26, 0x1007db56db95de, 0x1007db56db95df, 52, 1, 1, -1, 0x10000000000000, 0x10000000000000);
    } else if k == 27 {
        lemma_negative_entry(27, 0x117c6dd28a9378, 0x117c6dd28a9378, 54, 1, 1, 0, 0x40000000000000, 0x40000000000000);
    } else if k == 28 {
        lemma_negative_entry(28, 0x148df88a383ad8, 0x148df88a383ad8, 56, 1, 1, 0, 0x100000000000000, 0x100000000000000);
    } else if k == 29 {
        lemma_negative_entry(29, 0x19f7b3fa37f314, 0x19f7b3fa37f314, 58, 1, 1, 0, 0x400000000000000, 0x400000000000000);
    } else {
        lemma_negative_entry(30, 0x1195c16c40d563, 0x1195c16c40d563, 60, 1, 1, 0, 0x1000000000000000, 0x1000000000000000);
    }
}

/// The entries of the orders `1 - 2k` for `k` from 31 to 40.
proof fn lemma_negative_entries_31_to_40(k: nat)
    requires
        31 <= k <= 40,
    ensures
        eta_matches_zeta(1 - 2 * k),
{
    lemma2_to64();
    lemma2_to64_rest();
    if k == 31 {
        lemma_negative_entry(31, 0x197922eafb5d17, 0x197922eafb5d17, 62, 1, 1, 0, 0x4000000000000000, 0x4000000000000000);
    } else if k == 32 {
        lemma_negative_entry(32, 0x13b0a43def5904, 0x13b0a43def5904, 64, 1, 1, 0, 0x10000000000000000, 0x0);
    } else if k == 33 {
        lemma_negative_entry(33, 0x1035a171273534, 0x1035a171273534, 66, 1, 1, 0, 0x10000000000000000, 0x0);
    } else if k == 34 {
        lemma_negative_entry(34, 0x1c5e89f1fd242e, 0x1c5e89f1fd242e, 68, 1, 1, 0, 0x10000000000000000, 0x0);
    } else if k == 35 {
        lemma_negative_entry(35, 0x1a575dd47b788a, 0x1a575dd47b788a, 70, 1, 1, 0, 0x10000000000000000, 0x0);
    } else if k == 36 {
        lemma_negative_entry(36, 0x19e84a01ae153b, 0x19e84a01ae153b, 72, 1, 1, 0, 0x10000000000000000, 0x0);
    } else if k == 37 {
        lemma_negative_entry(37, 0x1af26959307252, 0x1af26959307253, 74, 1, 1, -1, 0x10000000000000000, 0x0);
    } else if k == 38 {
        lemma_negative_entry(38, 0x1d9890bc68eedc, 0x1d9890bc68eedd, 76, 1, 1, -1, 0x10000000000000000, 0x0);
    } else if k == 39 {
        lemma_negative_entry(39, 0x11231831c6ccbc, 0x11231831c6ccbc, 78, 1, 1, 0, 0x10000000000000000, 0x0);
    } else {
        lemma_negative_entry(40, 0x14e5b1c79769ad, 0x14e5b1c79769ad, 80, 1, 1, 0, 0x10000000000000000, 0x0);
    }
}

/// The entries of the orders `1 - 2k` for `k` from 41 to 50.
proof fn lemma_negative_entries_41_to_50(k: nat)
    requires
        41 <= k <= 50,
    ensures
        eta_matches_zeta(1 - 2 * k),
{
    lemma2_to64();
    lemma2_to64_rest();
    if k == 41 {
        lemma_negative_entry(41, 0x1acc2917790916, 0x1acc2917790915, 82, 1, 1, 1, 0x10000000000000000, 0x0);
    } else if k == 42 {
        lemma_negative_entry(42, 0x120bd5e935fc86, 0x120bd5e935fc86, 84, 1, 1, 0, 0x10000000000000000, 0x0);
    } else if k == 43 {
        lemma_negative_entry(43, 0x197f9f572293ec, 0x197f9f572293ec, 86, 1, 1, 0, 0x10000000000000000, 0x0);
    } else if k == 44 {
        lemma_negative_entry(44, 0x12e083516087a9, 0x12e083516087a9, 88, 1, 1, 0, 0x10000000000000000, 0x0);
    } else if k == 45 {
        lemma_negative_entry(45, 0x1d41e650690e84, 0x1d41e650690e84, 90, 1, 1, 0, 0x10000000000000000, 0x0);
    } else if k == 46 {
        lemma_negative_entry(46, 0x17b59a0f58ffb7, 0x17b59a0f58ffb7, 92, 1, 1, 0, 0x10000000000000000, 0x0);
    } else if k == 47 {
        lemma_negative_entry(47, 0x1412709736939f, 0x1412709736939f, 94, 1, 1, 0, 0x10000000000000000, 0x0);
    } else if k == 48 {
        lemma_negative_entry(48, 0x11bc48bbc5cc50, 0x11bc48bbc5cc50, 96, 1, 1, 0, 0x10000000000000000, 0x0);
    } else if k == 49 {
        lemma_negative_entry(49, 0x10575ec3ab2234, 0x10575ec3ab2234, 98, 1, 1, 0, 0x10000000000000000, 0x0);
    } else {
        lemma_negative_entry(50, 0x1f5fe45963cac2, 0x1f5fe45963cac2, 100, 1, 1, 0, 0x10000000000000000, 0x0);
    }
}

/// The entries of the orders `1 - 2k` for `k` from 51 to 60.
proof fn lemma_negative_entries_51_to_60(k: nat)
    requires
        51 <= k <= 60,
    ensures
        eta_matches_zeta(1 - 2 * k),
{
    lemma2_to64();
    lemma2_to64_rest();
    if k == 51 {
        lemma_negative_entry(51, 0x1f5abf07320dba, 0x1f5abf07320db9, 102, 1, 1, 1, 0x10000000000000000, 0x0);
    } else if k == 52 {
        lemma_negative_entry(52, 0x104c0734d5322d, 0x104c0734d5322d, 104, 1, 1, 0, 0x10000000000000000, 0x0);
    } else if k == 53 {
        lemma_negative_entry(53, 0x119bdb7ca080b5, 0x119bdb7ca080b5, 106, 1, 1, 0, 0x10000000000000000, 0x0);
    } else if k == 54 {
        lemma_negative_entry(54, 0x13c2f25da2f119, 0x13c2f25da2f119, 108, 1, 1, 0, 0x10000000000000000, 0x0);
    } else if k == 55 {
        lemma_negative_entry(55, 0x1704a6714a172b, 0x1704a6714a172b, 110, 1, 1, 0, 0x10000000000000000, 0x0);
    } else if k == 56 {
        lemma_negative_entry(56, 0x1bcf2002532ee3, 0x1bcf2002532ee3, 112, 1, 1, 0, 0x10000000000000000, 0x0);
    } else if k == 57 {
        lemma_negative_entry(57, 0x1169855a5defaf, 0x1169855a5defaf, 114, 1, 1, 0, 0x10000000000000000, 0x0);
    } else if k == 58 {
        lemma_negative_entry(58, 0x16963e57ed41df, 0x16963e57ed41e0, 116, 1, 1, -1, 0x10000000000000000, 0x0);
    } else if k == 59 {
        lemma_negative_entry(59, 0x1e54fbbb872117, 0x1e54fbbb872117, 118, 1, 1, 0, 0x10000000000000000, 0x0);
    } else {
        lemma_negative_entry(60, 0x15125bc119ad89, 0x15125bc119ad89, 120, 1, 1, 0, 0x10000000000000000, 0x0);
    }
}

/// The entries of the orders `1 - 2k` for `k` from 61 to 70.
proof fn lemma_negative_entries_61_to_70(k: nat)
    requires
        61 <= k <= 70,
    ensures
        eta_matches_zeta(1 - 2 * k),
{
    lemma2_to64();
    lemma2_to64_rest();
    if k == 61 {
        lemma_negative_entry(61, 0x1e4616e3d8d09a, 0x1e4616e3d8d09a, 122, 1, 1, 0, 0x10000000000000000, 0x0);
    } else if k == 62 {
        lemma_negative_entry(62, 0x1679a15f64d5a9, 0x1679a15f64d5aa, 124, 1, 1, -1, 0x10000000000000000, 0x0);
    } else if k == 63 {
        lemma_negative_entry(63, 0x113c15fcb28309, 0x113c15fcb28309, 126, 1, 1, 0, 0x10000000000000000, 0x0);
    } else if k == 64 {
        lemma_negative_entry(64, 0x1b49d69397c7aa, 0x1b49d69397c7aa, 128, 1, 1, 0, 0x10000000000000000, 0x0);
    } else if k == 65 {
        lemma_negative_entry(65, 0x164abed86e0175, 0x164abed86e0175, 130, 1, 1, 0, 0x10000000000000000, 0x0);
    } else if k == 66 {
        lemma_negative_entry(66, 0x12c8197ead1271, 0x12c8197ead1271, 132, 1, 1, 0, 0x10000000000000000, 0x0);
    } else if k == 67 {
        lemma_negative_entry(67, 0x105015c2200ed0, 0x105015c2200ed0, 134, 1, 1, 0, 0x10000000000000000, 0x0);
    } else if k == 68 {
        lemma_negative_entry(68, 0x1d32f2c47ba10c, 0x1d32f2c47ba10c, 136, 1, 1, 0, 0x10000000000000000, 0x0);
    } else if k == 69 {
        lemma_negative_entry(69, 0x1aea4c26df15f6, 0x1aea4c26df15f6, 138, 1, 1, 0, 0x10000000000000000, 0x0);
    } else {
        lemma_negative_entry(70, 0x198adca0fa6ca5, 0x198adca0fa6ca5, 140, 1, 1, 0, 0x10000000000000000, 0x0);
    }
}

/// The entries of the orders `1 - 2k` for `k` from 71 to 80.
proof fn lemma_negative_entries_71_to_80(k: nat)
    requires
        71 <= k <= 80,
    ensures
        eta_matches_zeta(1 - 2 * k),
{
    lemma2_to64();
    lemma2_to64_rest();
    if k == 71 {
        lemma_negative_entry(71, 0x18f1dcfb3cd633, 0x18f1dcfb3cd633, 142, 1, 1, 0, 0x10000000000000000, 0x0);
    } else if k == 72 {
        lemma_negative_entry(72, 0x190f42af6fe074, 0x190f42af6fe074, 144, 1, 1, 0, 0x10000000000000000, 0x0);
    } else if k == 73 {
        lemma_negative_entry(73, 0x19e2f8a971c6f1, 0x19e2f8a971c6f1, 146, 1, 1, 0, 0x10000000000000000, 0x0);
    } else if k == 74 {
        lemma_negative_entry(74, 0x1b7c7b687b5bb5, 0x1b7c7b687b5bb5, 148, 1, 1, 0, 0x10000000000000000, 0x0);
    } else if k == 75 {
        lemma_negative_entry(75, 0x1dfcb00aa4c2cf, 0x1dfcb00aa4c2cf, 150, 1, 1, 0, 0x10000000000000000, 0x0);
    } else if k == 76 {
        lemma_negative_entry(76, 0x10cd20cf8a2e4d, 0x10cd20cf8a2e4d, 152, 1, 1, 0, 0x10000000000000000, 0x0);
    } else if k == 77 {
        lemma_negative_entry(77, 0x1354a937fa88e0, 0x1354a937fa88e0, 154, 1, 1, 0, 0x10000000000000000, 0x0);
    } else if k == 78 {
        lemma_negative_entry(78, 0x16d400c144ce9e, 0x16d400c144ce9e, 156, 1, 1, 0, 0x10000000000000000, 0x0);
    } else if k == 79 {
        lemma_negative_entry(79, 0x1ba92b59047eb7, 0x1ba92b59047eb7, 158, 1, 1, 0, 0x10000000000000000, 0x0);
    } else {
        lemma_negative_entry(80, 0x113079715a5f66, 0x113079715a5f67, 160, 1, 1, -1, 0x10000000000000000, 0x0);
    }
}

/// The entries of the orders `1 - 2k` for `k` from 81 to 90.
proof fn lemma_negative_entries_81_to_90(k: nat)
    requires
        81 <= k <= 90,
    ensures
        eta_matches_zeta(1 - 2 * k),
{
    lemma2_to64();
    lemma2_to64_rest();
    if k == 81 {
        lemma_negative_entry(81, 0x15e8194cdc3f82, 0x15e8194cdc3f82, 162, 1, 1, 0, 0x10000000000000000, 0x0);
    } else if k == 82 {
        lemma_negative_entry(82, 0x1c9e5d8fd49581, 0x1c9e5d8fd49582, 164, 1, 1, -1, 0x10000000000000000, 0x0);
    } else if k == 83 {
        lemma_negative_entry(83, 0x132811f8ce591d, 0x132811f8ce591d, 166, 1, 1, 0, 0x10000000000000000, 0x0);
    } else if k == 84 {
        lemma_negative_entry(84, 0x1a45eae570d41e, 0x1a45eae570d41f, 168, 1, 1, -1, 0x10000000000000000, 0x0);
    } else if k == 85 {
        lemma_negative_entry(85, 0x1273c29596492d, 0x1273c29596492d, 170, 1, 1, 0, 0x10000000000000000, 0x0);
    } else if k == 86 {
        lemma_negative_entry(86, 0x1a89a664a7f630, 0x1a89a664a7f630, 172, 1, 1, 0, 0x10000000000000000, 0x0);
    } else if k == 87 {
        lemma_negative_entry(87, 0x13888d893937f4, 0x13888d893937f4, 174, 1, 1, 0, 0x10000000000000000, 0x0);
    } else if k == 88 {
        lemma_negative_entry(88, 0x1d6d21fe9b4fb0, 0x1d6d21fe9b4fb0, 176, 1, 1, 0, 0x10000000000000000, 0x0);
    } else if k == 89 {
        lemma_negative_entry(89, 0x16acfec47defa1, 0x16acfec47defa2, 178, 1, 1, -1, 0x10000000000000000, 0x0);
    } else {
        lemma_negative_entry(90, 0x11df41024fe6a3, 0x11df41024fe6a3, 180, 1, 1, 0, 0x10000000000000000, 0x0);
    }
}

/// The entries of the orders `1 - 2k` for `k` from 91 to 100.
proof fn lemma_negative_entries_91_to_100(k: nat)
    requires
        91 <= k <= 100,
    ensures
        eta_matches_zeta(1 - 2 * k),
{
    lemma2_to64();
    lemma2_to64_rest();
    if k == 91 {
        lemma_negative_entry(91, 0x1cce916a2f02f0, 0x1cce916a2f02f0, 182, 1, 1, 0, 0x10000000000000000, 0x0);
    } else if k == 92 {
        lemma_negative_entry(92, 0x17bbbe1e92e94b, 0x17bbbe1e92e94a, 184, 1, 1, 1, 0x10000000000000000, 0x0);
    } else if k == 93 {
        lemma_negative_entry(93, 0x13fbfc0ec34e1d, 0x13fbfc0ec34e1d, 186, 1, 1, 0, 0x10000000000000000, 0x0);
    } else if k == 94 {
        lemma_negative_entry(94, 0x1131bca925b254, 0x1131bca925b254, 188, 1, 1, 0, 0x10000000000000000, 0x0);
    } else if k == 95 {
        lemma_negative_entry(95, 0x1e39bd06647752, 0x1e39bd06647752, 190, 1, 1, 0, 0x10000000000000000, 0x0);
    } else if k == 96 {
        lemma_negative_entry(96, 0x1b221ac47c86e1, 0x1b221ac47c86e0, 192, 1, 1, 1, 0x10000000000000000, 0x0);
    } else if k == 97 {
        lemma_negative_entry(97, 0x18df13eed18d1c, 0x18df13eed18d1c, 194, 1, 1, 0, 0x10000000000000000, 0x0);
    } else if k == 98 {
        lemma_negative_entry(98, 0x1746394821e395, 0x1746394821e395, 196, 1, 1, 0, 0x10000000000000000, 0x0);
    } else if k == 99 {
        lemma_negative_entry(99, 0x163ae13ac3b026, 0x163ae13ac3b026, 198, 1, 1, 0, 0x10000000000000000, 0x0);
    } else {
        lemma_negative_entry(100, 0x15aabe04f8c67b, 0x15aabe04f8c67a, 200, 1, 1, 1, 0x10000000000000000, 0x0);
    }
}

/// The entries of the orders `1 - 2k` for `k` from 101 to 109.
proof fn lemma_negative_entries_101_to_109(k: nat)
    requires
        101 <= k <= 109,
    ensures
        eta_matches_zeta(1 - 2 * k),
{
    lemma2_to64();
    lemma2_to64_rest();
    if k == 101 {
        lemma_negative_entry(101, 0x158bbf428596ee, 0x158bbf428596ed, 202, 1, 1, 1, 0x10000000000000000, 0x0);
    } else if k == 102 {
        lemma_negative_entry(102, 0x15dae583a2ec22, 0x15dae583a2ec22, 204, 1, 1, 0, 0x10000000000000000, 0x0);
    } else if k == 103 {
        lemma_negative_entry(103, 0x169bd69fe4f931, 0x169bd69fe4f932, 206, 1, 1, -1, 0x10000000000000000, 0x0);
    } else if k == 104 {
        lemma_negative_entry(104, 0x17d91ef248869e, 0x17d91ef248869e, 208, 1, 1, 0, 0x10000000000000000, 0x0);
    } else if k == 105 {
        lemma_negative_entry(105, 0x19a524a0bade89, 0x19a524a0bade89, 210, 1, 1, 0, 0x10000000000000000, 0x0);
    } else if k == 106 {
        lemma_negative_entry(106, 0x1c1beb34433779, 0x1c1beb34433779, 212, 1, 1, 0, 0x10000000000000000, 0x0);
    } else if k == 107 {
        lemma_negative_entry(107, 0x1f65e3ac01ea15, 0x1f65e3ac01ea15, 214, 1, 1, 0, 0x10000000000000000, 0x0);
    } else if k == 108 {
        lemma_negative_entry(108, 0x11de16aac99ca0, 0x11de16aac99ca0, 216, 1, 1, 0, 0x10000000000000000, 0x0);
    } else {
        lemma_negative_entry(109, 0x14b772d3493200, 0x14b772d3493200, 218, 1, 1, 0, 0x10000000000000000, 0x0);
    }
}

/// The tables of zeta and of eta agree, within two units in the last place
/// of eta, with `eta(n) = (1 - 2^(1-n)) zeta(n)`: at every order from 2 on,
/// and at every negative order at which both are finite.
pub proof fn lemma_eta_matches_zeta(n: int)
    requires
        n >= 2 || (-217 <= n < 0) || (n < 0 && n % 2 == 0),
    ensures
        eta_matches_zeta(n),
{
    if n >= 55 {
        let eta = neg_eta_spec(n);
        let zeta = zeta_spec(n);
        let power = pow2((n - 1) as nat) as int;
        let one = pow2(1074) as int;
        let unit = pow2(1022) as int;
        lemma_power_of_two(b64(ONE), 1023);
        lemma_pow2_adds(52, 1022);
        lemma_pow2_pos(1022);
        lemma_pow2_strictly_increases(51, (n - 1) as nat);
        lemma2_to64_rest();
        assert(zeta == b64(ONE));
        assert(eta.magnitude() == b64(ONE).magnitude());
        assert(eta.magnitude() == one && zeta.magnitude() == one);
        assert(eta.scale() == 1022 && eta.ulp() == unit);
        assert(one * power - (power - 1) * one == one) by (nonlinear_arith);
        assert(one < 2 * power * unit) by (nonlinear_arith)
            requires
                one == 0x10000000000000 * unit,
                power > 0x8000000000000,
                unit > 0,
        ;
        assert(-2 * power * unit < one) by (nonlinear_arith)
            requires
                one > 0,
                power > 0,
                unit > 0,
        ;
    } else if n >= 2 {
        let m = n as nat;
        if m <= 11 {
            lemma_positive_entries_2_to_11(m);
        } else if m <= 21 {
            lemma_positive_entries_12_to_21(m);
        } else if m <= 31 {
            lemma_positive_entries_22_to_31(m);
        } else if m <= 41 {
            lemma_positive_entries_32_to_41(m);
        } else if m <= 51 {
            lemma_positive_entries_42_to_51(m);
        } else {
            lemma_positive_entries_52_to_54(m);
        }
    } else if n % 2 == 0 {
        assert(neg_eta_spec(n).magnitude() == 0 && zeta_spec(n).magnitude() == 0);
        lemma_pow2_pos(0);
        lemma_pow2_pos((1 - n) as nat);
        assert((pow2((1 - n) as nat) - 1) * 0 == 0);
    } else {
        let k = ((1 - n) / 2) as nat;
        assert(n == 1 - 2 * k);
        if k <= 10 {
            lemma_negative_entries_1_to_10(k);
        } else if k <= 20 {
            lemma_negative_entries_11_to_20(k);
        } else if k <= 30 {
            lemma_negative_entries_21_to_30(k);
        } else if k <= 40 {
            lemma_negative_entries_31_to_40(k);
        } else if k <= 50 {
            lemma_negative_entries_41_to_50(k);
        } else if k <= 60 {
            lemma_negative_entries_51_to_60(k);
        } else if k <= 70 {
            lemma_negative_entries_61_to_70(k);
        } else if k <= 80 {
            lemma_negative_entries_71_to_80(k);
        } else if k <= 90 {
            lemma_negative_entries_81_to_90(k);
        } else if k <= 100 {
            lemma_negative_entries_91_to_100(k);
        } else {
            lemma_negative_entries_101_to_109(k);
        }
    }
}

} // verus!
