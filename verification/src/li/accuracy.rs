//! The accuracy of the tables of the factorials and of their reciprocals.
//!
//! The tables are held against the recurrence `n! = n (n-1)!`, which is
//! exact in the integers. The error of an entry is a whole number of units
//! of 2^-1074; it follows from the error of the entry before and the two
//! significands. Its size is far beyond a machine word, so it is bounded
//! rather than computed: in parts of 2^-40 of a unit in the last place,
//! rounded outwards at every step.
use crate::ieee::{b64, lemma_power_of_two, INFINITY_BITS, ONE};
use crate::li::fac::{fac_spec, factorial, inv_fac_spec};
use vstd::arithmetic::power2::{lemma2_to64, lemma_pow2_adds, lemma_pow2_pos, pow2};
use vstd::prelude::*;

verus! {

/// The number of parts into which a unit in the last place is divided for
/// the bounds: 2^40.
pub open spec fn parts() -> int {
    0x100_0000_0000
}

/// The error of the table at `n`, in units of 2^-1074: the entry less `n!`.
pub open spec fn fac_error(n: nat) -> int {
    fac_spec(n as int).scaled() - factorial(n) * pow2(1074)
}

/// A lower bound of the error at `n`, in parts of a unit in the last place of
/// the entry.
pub open spec fn fac_error_low(n: nat) -> int {
    if n == 0 {
        0
    } else if n == 1 {
        0
    } else if n == 2 {
        0
    } else if n == 3 {
        0
    } else if n == 4 {
        0
    } else if n == 5 {
        0
    } else if n == 6 {
        0
    } else if n == 7 {
        0
    } else if n == 8 {
        0
    } else if n == 9 {
        0
    } else if n == 10 {
        0
    } else if n == 11 {
        0
    } else if n == 12 {
        0
    } else if n == 13 {
        0
    } else if n == 14 {
        0
    } else if n == 15 {
        0
    } else if n == 16 {
        0
    } else if n == 17 {
        0
    } else if n == 18 {
        0
    } else if n == 19 {
        0
    } else if n == 20 {
        0
    } else if n == 21 {
        0
    } else if n == 22 {
        0
    } else if n == 23 {
        412316860416
    } else if n == 24 {
        -240518168576
    } else if n == 25 {
        36507222016
    } else if n == 26 {
        235820548096
    } else if n == 27 {
        -110264057856
    } else if n == 28 {
        356793712640
    } else if n == 29 {
        -54612819968
    } else if n == 30 {
        292397864960
    } else if n == 31 {
        -369574597312
    } else if n == 32 {
        -369574597312
    } else if n == 33 {
        -518562756950
    } else if n == 34 {
        479819221780
    } else if n == 35 {
        456082797085
    } else if n == 36 {
        531424480304
    } else if n == 37 {
        236502433303
    } else if n == 38 {
        74688209339
    } else if n == 39 {
        331544423707
    } else if n == 40 {
        -342540549072
    } else if n == 41 {
        179595212125
    } else if n == 42 {
        373157669386
    } else if n == 43 {
        -161601551298
    } else if n == 44 {
        327553680853
    } else if n == 45 {
        -302264762855
    } else if n == 46 {
        321408647491
    } else if n == 47 {
        -73203169811
    } else if n == 48 {
        -109804754717
    } else if n == 49 {
        -462026387379
    } else if n == 50 {
        -464037330244
    } else if n == 51 {
        566110562907
    } else if n == 52 {
        -158510458263
    } else if n == 53 {
        -114086604066
    } else if n == 54 {
        -27541095445
    } else if n == 55 {
        364980602619
    } else if n == 56 {
        319358027291
    } else if n == 57 {
        -454306131856
    } else if n == 58 {
        -205556501787
    } else if n == 59 {
        119740245227
    } else if n == 60 {
        -162621427044
    } else if n == 61 {
        377577397052
    } else if n == 62 {
        297058626658
    } else if n == 63 {
        103797834080
    } else if n == 64 {
        103797834080
    } else if n == 65 {
        516566305586
    } else if n == 66 {
        51672665483
    } else if n == 67 {
        -306682431187
    } else if n == 68 {
        -119691652929
    } else if n == 69 {
        -506999685363
    } else if n == 70 {
        235743076598
    } else if n == 71 {
        -150789384816
    } else if n == 72 {
        -307077011390
    } else if n == 73 {
        96416882667
    } else if n == 74 {
        -287856373389
    } else if n == 75 {
        435762425714
    } else if n == 76 {
        517467880535
    } else if n == 77 {
        158722075800
    } else if n == 78 {
        577757602092
    } else if n == 79 {
        335212418034
    } else if n == 80 {
        419015522542
    } else if n == 81 {
        -138568665466
    } else if n == 82 {
        406574449627
    } else if n == 83 {
        321117809152
    } else if n == 84 {
        -132863821424
    } else if n == 85 {
        -416977931405
    } else if n == 86 {
        389857850513
    } else if n == 87 {
        478423407989
    } else if n == 88 {
        -83400767424
    } else if n == 89 {
        -356497360775
    } else if n == 90 {
        117150877034
    } else if n == 91 {
        -243130562855
    } else if n == 92 {
        375005721835
    } else if n == 93 {
        -56365231899
    } else if n == 94 {
        -24213347992
    } else if n == 95 {
        32777788310
    } else if n == 96 {
        -250294565712
    } else if n == 97 {
        50144028442
    } else if n == 98 {
        175830475247
    } else if n == 99 {
        32914668094
    } else if n == 100 {
        -154729261312
    } else if n == 101 {
        324585541030
    } else if n == 102 {
        258654103008
    } else if n == 103 {
        55494194164
    } else if n == 104 {
        319966939702
    } else if n == 105 {
        399911833696
    } else if n == 106 {
        112598160671
    } else if n == 107 {
        -678969088345
    } else if n == 108 {
        217393814172
    } else if n == 109 {
        313973438760
    } else if n == 110 {
        -559869779908
    } else if n == 111 {
        -365252990476
    } else if n == 112 {
        -44718459723
    } else if n == 113 {
        347069041415
    } else if n == 114 {
        223209019090
    } else if n == 115 {
        544136736768
    } else if n == 116 {
        -319422222592
    } else if n == 117 {
        360863153654
    } else if n == 118 {
        452929804062
    } else if n == 119 {
        -77133029123
    } else if n == 120 {
        65126738669
    } else if n == 121 {
        284903419540
    } else if n == 122 {
        -192307896219
    } else if n == 123 {
        -184795869023
    } else if n == 124 {
        198936123931
    } else if n == 125 {
        39654735870
    } else if n == 126 {
        -81223953666
    } else if n == 127 {
        -209438410408
    } else if n == 128 {
        -209438410408
    } else if n == 129 {
        20853585994
    } else if n == 130 {
        416316414507
    } else if n == 131 {
        82476446792
    } else if n == 132 {
        119413574122
    } else if n == 133 {
        -64900394163
    } else if n == 134 {
        -274101030348
    } else if n == 135 {
        -194601649934
    } else if n == 136 {
        411711037569
    } else if n == 137 {
        466429273674
    } else if n == 138 {
        107732069447
    } else if n == 139 {
        331738658965
    } else if n == 140 {
        421937747697
    } else if n == 141 {
        -230993901755
    } else if n == 142 {
        173237869840
    } else if n == 143 {
        545726500983
    } else if n == 144 {
        -485569314171
    } else if n == 145 {
        -258001212582
    } else if n == 146 {
        -482148765639
    } else if n == 147 {
        38987763809
    } else if n == 148 {
        -504676211984
    } else if n == 149 {
        125489918123
    } else if n == 150 {
        147058497800
    } else if n == 151 {
        -274035717053
    } else if n == 152 {
        -462856367473
    } else if n == 153 {
        -372869375314
    } else if n == 154 {
        -328349382887
    } else if n == 155 {
        230691439180
    } else if n == 156 {
        -199881145652
    } else if n == 157 {
        321768965358
    } else if n == 158 {
        525009297802
    } else if n == 159 {
        162533715369
    } else if n == 160 {
        478045051155
    } else if n == 161 {
        343593003145
    } else if n == 162 {
        -83217763418
    } else if n == 163 {
        194675090117
    } else if n == 164 {
        -493761561018
    } else if n == 165 {
        -121093436730
    } else if n == 166 {
        169374463736
    } else if n == 167 {
        389663247067
    } else if n == 168 {
        99116151359
    } else if n == 169 {
        -375941847337
    } else {
        59588762314
    }
}

/// An upper bound of the error at `n`, in parts of a unit in the last place of
/// the entry.
pub open spec fn fac_error_high(n: nat) -> int {
    if n == 0 {
        0
    } else if n == 1 {
        0
    } else if n == 2 {
        0
    } else if n == 3 {
        0
    } else if n == 4 {
        0
    } else if n == 5 {
        0
    } else if n == 6 {
        0
    } else if n == 7 {
        0
    } else if n == 8 {
        0
    } else if n == 9 {
        0
    } else if n == 10 {
        0
    } else if n == 11 {
        0
    } else if n == 12 {
        0
    } else if n == 13 {
        0
    } else if n == 14 {
        0
    } else if n == 15 {
        0
    } else if n == 16 {
        0
    } else if n == 17 {
        0
    } else if n == 18 {
        0
    } else if n == 19 {
        0
    } else if n == 20 {
        0
    } else if n == 21 {
        0
    } else if n == 22 {
        0
    } else if n == 23 {
        412316860416
    } else if n == 24 {
        -240518168576
    } else if n == 25 {
        36507222016
    } else if n == 26 {
        235820548096
    } else if n == 27 {
        -110264057856
    } else if n == 28 {
        356793712640
    } else if n == 29 {
        -54612819968
    } else if n == 30 {
        292397864960
    } else if n == 31 {
        -369574597312
    } else if n == 32 {
        -369574597312
    } else if n == 33 {
        -518562756950
    } else if n == 34 {
        479819221781
    } else if n == 35 {
        456082797087
    } else if n == 36 {
        531424480306
    } else if n == 37 {
        236502433306
    } else if n == 38 {
        74688209343
    } else if n == 39 {
        331544423713
    } else if n == 40 {
        -342540549067
    } else if n == 41 {
        179595212132
    } else if n == 42 {
        373157669396
    } else if n == 43 {
        -161601551290
    } else if n == 44 {
        327553680865
    } else if n == 45 {
        -302264762845
    } else if n == 46 {
        321408647507
    } else if n == 47 {
        -73203169799
    } else if n == 48 {
        -109804754698
    } else if n == 49 {
        -462026387363
    } else if n == 50 {
        -464037330231
    } else if n == 51 {
        566110562929
    } else if n == 52 {
        -158510458244
    } else if n == 53 {
        -114086604049
    } else if n == 54 {
        -27541095430
    } else if n == 55 {
        364980602646
    } else if n == 56 {
        319358027316
    } else if n == 57 {
        -454306131833
    } else if n == 58 {
        -205556501765
    } else if n == 59 {
        119740245248
    } else if n == 60 {
        -162621427024
    } else if n == 61 {
        377577397072
    } else if n == 62 {
        297058626678
    } else if n == 63 {
        103797834121
    } else if n == 64 {
        103797834121
    } else if n == 65 {
        516566305608
    } else if n == 66 {
        51672665507
    } else if n == 67 {
        -306682431161
    } else if n == 68 {
        -119691652900
    } else if n == 69 {
        -506999685330
    } else if n == 70 {
        235743076635
    } else if n == 71 {
        -150789384774
    } else if n == 72 {
        -307077011342
    } else if n == 73 {
        96416882723
    } else if n == 74 {
        -287856373355
    } else if n == 75 {
        435762425755
    } else if n == 76 {
        517467880585
    } else if n == 77 {
        158722075861
    } else if n == 78 {
        577757602130
    } else if n == 79 {
        335212418082
    } else if n == 80 {
        419015522603
    } else if n == 81 {
        -138568665426
    } else if n == 82 {
        406574449679
    } else if n == 83 {
        321117809220
    } else if n == 84 {
        -132863821379
    } else if n == 85 {
        -416977931344
    } else if n == 86 {
        389857850555
    } else if n == 87 {
        478423408047
    } else if n == 88 {
        -83400767383
    } else if n == 89 {
        -356497360717
    } else if n == 90 {
        117150877116
    } else if n == 91 {
        -243130562796
    } else if n == 92 {
        375005721879
    } else if n == 93 {
        -56365231834
    } else if n == 94 {
        -24213347944
    } else if n == 95 {
        32777788382
    } else if n == 96 {
        -250294565657
    } else if n == 97 {
        50144028527
    } else if n == 98 {
        175830475313
    } else if n == 99 {
        32914668146
    } else if n == 100 {
        -154729261229
    } else if n == 101 {
        324585541096
    } else if n == 102 {
        258654103061
    } else if n == 103 {
        55494194250
    } else if n == 104 {
        319966939773
    } else if n == 105 {
        399911833755
    } else if n == 106 {
        112598160769
    } else if n == 107 {
        -678969088262
    } else if n == 108 {
        217393814243
    } else if n == 109 {
        313973438822
    } else if n == 110 {
        -559869779800
    } else if n == 111 {
        -365252990382
    } else if n == 112 {
        -44718459640
    } else if n == 113 {
        347069041490
    } else if n == 114 {
        223209019158
    } else if n == 115 {
        544136736830
    } else if n == 116 {
        -319422222479
    } else if n == 117 {
        360863153758
    } else if n == 118 {
        452929804159
    } else if n == 119 {
        -77133029031
    } else if n == 120 {
        65126738756
    } else if n == 121 {
        284903419623
    } else if n == 122 {
        -192307896139
    } else if n == 123 {
        -184795868946
    } else if n == 124 {
        198936124007
    } else if n == 125 {
        39654735945
    } else if n == 126 {
        -81223953592
    } else if n == 127 {
        -209438410334
    } else if n == 128 {
        -209438410334
    } else if n == 129 {
        20853586070
    } else if n == 130 {
        416316414585
    } else if n == 131 {
        82476446872
    } else if n == 132 {
        119413574205
    } else if n == 133 {
        -64900394076
    } else if n == 134 {
        -274101030256
    } else if n == 135 {
        -194601649836
    } else if n == 136 {
        411711037674
    } else if n == 137 {
        466429273787
    } else if n == 138 {
        107732069570
    } else if n == 139 {
        331738659099
    } else if n == 140 {
        421937747771
    } else if n == 141 {
        -230993901673
    } else if n == 142 {
        173237869932
    } else if n == 143 {
        545726501087
    } else if n == 144 {
        -485569314053
    } else if n == 145 {
        -258001212447
    } else if n == 146 {
        -482148765561
    } else if n == 147 {
        38987763900
    } else if n == 148 {
        -504676211878
    } else if n == 149 {
        125489918247
    } else if n == 150 {
        147058497946
    } else if n == 151 {
        -274035716966
    } else if n == 152 {
        -462856367369
    } else if n == 153 {
        -372869375188
    } else if n == 154 {
        -328349382735
    } else if n == 155 {
        230691439273
    } else if n == 156 {
        -199881145538
    } else if n == 157 {
        321768965499
    } else if n == 158 {
        525009297890
    } else if n == 159 {
        162533715479
    } else if n == 160 {
        478045051293
    } else if n == 161 {
        343593003320
    } else if n == 162 {
        -83217763306
    } else if n == 163 {
        194675090261
    } else if n == 164 {
        -493761560925
    } else if n == 165 {
        -121093436609
    } else if n == 166 {
        169374463894
    } else if n == 167 {
        389663247171
    } else if n == 168 {
        99116151496
    } else if n == 169 {
        -375941847155
    } else {
        59588762436
    }
}

/// The error at `n` lies between the bounds `low` and `high`.
pub open spec fn fac_error_between(n: nat, low: int, high: int) -> bool {
    let unit = fac_spec(n as int).ulp();
    low * unit <= fac_error(n) * parts() && fac_error(n) * parts() <= high * unit
}

/// One step of the recurrence: bounds of the error at `n - 1` give bounds of
/// the error at `n`. With the significands `sig_prev` and `sig` of the two
/// entries and `shift`, the ratio of their units in the last place, the
/// error grows by `sig * shift - n * sig_prev` units of the entry before,
/// after it has been multiplied by `n`.
proof fn lemma_fac_error_step(
    n: nat,
    sig_prev: nat,
    sig: nat,
    shift: nat,
    low_prev: int,
    high_prev: int,
    low: int,
    high: int,
)
    requires
        1 <= n <= 170,
        sig_prev == fac_spec(n - 1).significand(),
        sig == fac_spec(n as int).significand(),
        fac_spec(n - 1).exponent() <= fac_spec(n as int).exponent(),
        shift == pow2((fac_spec(n as int).exponent() - fac_spec(n - 1).exponent()) as nat),
        fac_error_between((n - 1) as nat, low_prev, high_prev),
        low * shift <= (sig * shift - n * sig_prev) * parts() + n * low_prev,
        (sig * shift - n * sig_prev) * parts() + n * high_prev <= high * shift,
    ensures
        fac_error_between(n, low, high),
{
    let y = fac_spec(n - 1);
    let x = fac_spec(n as int);
    let unit_prev = y.ulp() as int;
    let unit = x.ulp() as int;
    let one = pow2(1074) as int;
    let before = factorial((n - 1) as nat) as int;
    let whole = before * one;
    let error_prev = fac_error((n - 1) as nat);
    let error = fac_error(n);
    let raised = (sig * shift) as int;
    let carried = (n * sig_prev) as int;
    let k = parts();
    assert(1 <= y.exponent());
    lemma_pow2_adds((x.exponent() - y.exponent()) as nat, (y.exponent() - 1) as nat);
    lemma_pow2_pos((y.exponent() - 1) as nat);
    assert(unit == shift * unit_prev);
    assert(x.scaled() == sig * unit);
    assert(y.scaled() == sig_prev * unit_prev);
    assert(factorial(n) == n * before);
    // the error at n, in terms of the error before
    assert(sig * (shift * unit_prev) == raised * unit_prev) by (nonlinear_arith)
        requires
            raised == sig * shift,
    ;
    assert((n * before) * one == n * whole) by (nonlinear_arith)
        requires
            whole == before * one,
    ;
    assert(n * (sig_prev * unit_prev) == carried * unit_prev) by (nonlinear_arith)
        requires
            carried == n * sig_prev,
    ;
    assert(n * error_prev == carried * unit_prev - n * whole) by (nonlinear_arith)
        requires
            error_prev == sig_prev * unit_prev - whole,
            n * (sig_prev * unit_prev) == carried * unit_prev,
    ;
    assert((raised - carried) * unit_prev == raised * unit_prev - carried * unit_prev)
        by (nonlinear_arith);
    assert(error == (raised - carried) * unit_prev + n * error_prev);
    // the bounds before, multiplied by n
    let grown = n * error_prev;
    assert(grown * k == n * (error_prev * k)) by (nonlinear_arith)
        requires
            grown == n * error_prev,
    ;
    assert(n * (error_prev * k) <= n * (high_prev * unit_prev) && n * (low_prev * unit_prev) <= n
        * (error_prev * k)) by (nonlinear_arith)
        requires
            low_prev * unit_prev <= error_prev * k,
            error_prev * k <= high_prev * unit_prev,
            n >= 0,
    ;
    assert(n * (high_prev * unit_prev) == (n * high_prev) * unit_prev && n * (low_prev * unit_prev)
        == (n * low_prev) * unit_prev) by (nonlinear_arith);
    // the growth, in parts
    let growth = raised - carried;
    assert((growth * unit_prev) * k == (growth * k) * unit_prev) by (nonlinear_arith);
    assert(error * k == (growth * unit_prev) * k + grown * k) by (nonlinear_arith)
        requires
            error == growth * unit_prev + grown,
    ;
    let top = growth * k + n * high_prev;
    let bottom = growth * k + n * low_prev;
    assert(top * unit_prev == (growth * k) * unit_prev + (n * high_prev) * unit_prev)
        by (nonlinear_arith)
        requires
            top == growth * k + n * high_prev,
    ;
    assert(bottom * unit_prev == (growth * k) * unit_prev + (n * low_prev) * unit_prev)
        by (nonlinear_arith)
        requires
            bottom == growth * k + n * low_prev,
    ;
    assert(bottom * unit_prev <= error * k <= top * unit_prev);
    assert(top * unit_prev <= (high * shift) * unit_prev && (low * shift) * unit_prev <= bottom
        * unit_prev) by (nonlinear_arith)
        requires
            top <= high * shift,
            low * shift <= bottom,
            unit_prev > 0,
    ;
    assert((high * shift) * unit_prev == high * unit && (low * shift) * unit_prev == low * unit)
        by (nonlinear_arith)
        requires
            unit == shift * unit_prev,
    ;
}

/// The step of `lemma_fac_error_bounds` for the entries 1 to 10.
proof fn lemma_fac_error_bounds_1_to_10(n: nat)
    requires
        1 <= n <= 10,
        fac_error_between((n - 1) as nat, fac_error_low((n - 1) as nat), fac_error_high((n - 1) as nat)),
    ensures
        fac_error_between(n, fac_error_low(n), fac_error_high(n)),
{
    lemma2_to64();
    if n == 1 {
        lemma_fac_error_step(1, 0x10000000000000, 0x10000000000000, 1, 0, 0, 0, 0);
    } else if n == 2 {
        lemma_fac_error_step(2, 0x10000000000000, 0x10000000000000, 2, 0, 0, 0, 0);
    } else if n == 3 {
        lemma_fac_error_step(3, 0x10000000000000, 0x18000000000000, 2, 0, 0, 0, 0);
    } else if n == 4 {
        lemma_fac_error_step(4, 0x18000000000000, 0x18000000000000, 4, 0, 0, 0, 0);
    } else if n == 5 {
        lemma_fac_error_step(5, 0x18000000000000, 0x1e000000000000, 4, 0, 0, 0, 0);
    } else if n == 6 {
        lemma_fac_error_step(6, 0x1e000000000000, 0x16800000000000, 8, 0, 0, 0, 0);
    } else if n == 7 {
        lemma_fac_error_step(7, 0x16800000000000, 0x13b00000000000, 8, 0, 0, 0, 0);
    } else if n == 8 {
        lemma_fac_error_step(8, 0x13b00000000000, 0x13b00000000000, 8, 0, 0, 0, 0);
    } else if n == 9 {
        lemma_fac_error_step(9, 0x13b00000000000, 0x16260000000000, 8, 0, 0, 0, 0);
    } else {
        lemma_fac_error_step(10, 0x16260000000000, 0x1baf8000000000, 8, 0, 0, 0, 0);
    }
}

/// The step of `lemma_fac_error_bounds` for the entries 11 to 20.
proof fn lemma_fac_error_bounds_11_to_20(n: nat)
    requires
        11 <= n <= 20,
        fac_error_between((n - 1) as nat, fac_error_low((n - 1) as nat), fac_error_high((n - 1) as nat)),
    ensures
        fac_error_between(n, fac_error_low(n), fac_error_high(n)),
{
    lemma2_to64();
    if n == 11 {
        lemma_fac_error_step(11, 0x1baf8000000000, 0x1308a800000000, 16, 0, 0, 0, 0);
    } else if n == 12 {
        lemma_fac_error_step(12, 0x1308a800000000, 0x1c8cfc00000000, 8, 0, 0, 0, 0);
    } else if n == 13 {
        lemma_fac_error_step(13, 0x1c8cfc00000000, 0x17328cc0000000, 16, 0, 0, 0, 0);
    } else if n == 14 {
        lemma_fac_error_step(14, 0x17328cc0000000, 0x144c3b28000000, 16, 0, 0, 0, 0);
    } else if n == 15 {
        lemma_fac_error_step(15, 0x144c3b28000000, 0x13077775800000, 16, 0, 0, 0, 0);
    } else if n == 16 {
        lemma_fac_error_step(16, 0x13077775800000, 0x13077775800000, 16, 0, 0, 0, 0);
    } else if n == 17 {
        lemma_fac_error_step(17, 0x13077775800000, 0x1437eeecd80000, 16, 0, 0, 0, 0);
    } else if n == 18 {
        lemma_fac_error_step(18, 0x1437eeecd80000, 0x16beecca730000, 16, 0, 0, 0, 0);
    } else if n == 19 {
        lemma_fac_error_step(19, 0x16beecca730000, 0x1b02b930689000, 16, 0, 0, 0, 0);
    } else {
        lemma_fac_error_step(20, 0x1b02b930689000, 0x10e1b3be415a00, 32, 0, 0, 0, 0);
    }
}

/// The step of `lemma_fac_error_bounds` for the entries 21 to 30.
proof fn lemma_fac_error_bounds_21_to_30(n: nat)
    requires
        21 <= n <= 30,
        fac_error_between((n - 1) as nat, fac_error_low((n - 1) as nat), fac_error_high((n - 1) as nat)),
    ensures
        fac_error_between(n, fac_error_low(n), fac_error_high(n)),
{
    lemma2_to64();
    if n == 21 {
        lemma_fac_error_step(21, 0x10e1b3be415a00, 0x16283be9b5c620, 16, 0, 0, 0, 0);
    } else if n == 22 {
        lemma_fac_error_step(22, 0x16283be9b5c620, 0x1e77526159f06c, 16, 0, 0, 0, 0);
    } else if n == 23 {
        lemma_fac_error_step(23, 0x1e77526159f06c, 0x15e5c335f8a4ce, 32, 0, 0, 412316860416, 412316860416);
    } else if n == 24 {
        lemma_fac_error_step(24, 0x15e5c335f8a4ce, 0x106c52687a7b9a, 32, 412316860416, 412316860416, -240518168576, -240518168576);
    } else if n == 25 {
        lemma_fac_error_step(25, 0x106c52687a7b9a, 0x19a940c33f6121, 16, -240518168576, -240518168576, 36507222016, 36507222016);
    } else if n == 26 {
        lemma_fac_error_step(26, 0x19a940c33f6121, 0x14d9849ea37eeb, 32, 36507222016, 36507222016, 235820548096, 235820548096);
    } else if n == 27 {
        lemma_fac_error_step(27, 0x14d9849ea37eeb, 0x119787e5d9f316, 32, 235820548096, 235820548096, -110264057856, -110264057856);
    } else if n == 28 {
        lemma_fac_error_step(28, 0x119787e5d9f316, 0x1ec92dd23d6967, 16, -110264057856, -110264057856, 356793712640, 356793712640);
    } else if n == 29 {
        lemma_fac_error_step(29, 0x1ec92dd23d6967, 0x1be6518687a785, 32, 356793712640, 356793712640, -54612819968, -54612819968);
    } else {
        lemma_fac_error_step(30, 0x1be6518687a785, 0x1a27ec6e1f2d0d, 32, -54612819968, -54612819968, 292397864960, 292397864960);
    }
}

/// The step of `lemma_fac_error_bounds` for the entries 31 to 40.
proof fn lemma_fac_error_bounds_31_to_40(n: nat)
    requires
        31 <= n <= 40,
        fac_error_between((n - 1) as nat, fac_error_low((n - 1) as nat), fac_error_high((n - 1) as nat)),
    ensures
        fac_error_between(n, fac_error_low(n), fac_error_high(n)),
{
    lemma2_to64();
    if n == 31 {
        lemma_fac_error_step(31, 0x1a27ec6e1f2d0d, 0x1956ad0aae33a4, 32, 292397864960, 292397864960, -369574597312, -369574597312);
    } else if n == 32 {
        lemma_fac_error_step(32, 0x1956ad0aae33a4, 0x1956ad0aae33a4, 32, -369574597312, -369574597312, -369574597312, -369574597312);
    } else if n == 33 {
        lemma_fac_error_step(33, 0x1956ad0aae33a4, 0x1a21627303a541, 32, -369574597312, -369574597312, -518562756950, -518562756950);
    } else if n == 34 {
        lemma_fac_error_step(34, 0x1a21627303a541, 0x1bc3789a33df96, 32, -518562756950, -518562756950, 479819221780, 479819221781);
    } else if n == 35 {
        lemma_fac_error_step(35, 0x1bc3789a33df96, 0x1e5dcbe8a8bc8c, 32, 479819221780, 479819221781, 456082797085, 456082797087);
    } else if n == 36 {
        lemma_fac_error_step(36, 0x1e5dcbe8a8bc8c, 0x1114c2b2deea0f, 64, 456082797085, 456082797087, 531424480304, 531424480306);
    } else if n == 37 {
        lemma_fac_error_step(37, 0x1114c2b2deea0f, 0x13c0011ed1bea1, 32, 531424480304, 531424480306, 236502433303, 236502433306);
    } else if n == 38 {
        lemma_fac_error_step(38, 0x13c0011ed1bea1, 0x1774015499125f, 32, 236502433303, 236502433306, 74688209339, 74688209343);
    } else if n == 39 {
        lemma_fac_error_step(39, 0x1774015499125f, 0x1c95619f1a8e64, 32, 74688209339, 74688209343, 331544423707, 331544423713);
    } else {
        lemma_fac_error_step(40, 0x1c95619f1a8e64, 0x11dd5d037098fe, 64, 331544423707, 331544423713, -342540549072, -342540549067);
    }
}

/// The step of `lemma_fac_error_bounds` for the entries 41 to 50.
proof fn lemma_fac_error_bounds_41_to_50(n: nat)
    requires
        41 <= n <= 50,
        fac_error_between((n - 1) as nat, fac_error_low((n - 1) as nat), fac_error_high((n - 1) as nat)),
    ensures
        fac_error_between(n, fac_error_low(n), fac_error_high(n)),
{
    lemma2_to64();
    if n == 41 {
        lemma_fac_error_step(41, 0x11dd5d037098fe, 0x16e39f2c684406, 32, -342540549072, -342540549067, 179595212125, 179595212132);
    } else if n == 42 {
        lemma_fac_error_step(42, 0x16e39f2c684406, 0x1e0ac0ea48d948, 32, 179595212125, 179595212132, 373157669386, 373157669396);
    } else if n == 43 {
        lemma_fac_error_step(43, 0x1e0ac0ea48d948, 0x142f399d68f1fc, 64, 373157669386, 373157669396, -161601551298, -161601551290);
    } else if n == 44 {
        lemma_fac_error_step(44, 0x142f399d68f1fc, 0x1bc0ef38704cbb, 32, -161601551298, -161601551290, 327553680853, 327553680865);
    } else if n == 45 {
        lemma_fac_error_step(45, 0x1bc0ef38704cbb, 0x1383a833aef5f3, 64, 327553680853, 327553680865, -302264762855, -302264762845);
    } else if n == 46 {
        lemma_fac_error_step(46, 0x1383a833aef5f3, 0x1c0d41ca4b818e, 32, -302264762855, -302264762845, 321408647491, 321408647507);
    } else if n == 47 {
        lemma_fac_error_step(47, 0x1c0d41ca4b818e, 0x1499bc508f7324, 64, 321408647491, 321408647507, -73203169811, -73203169799);
    } else if n == 48 {
        lemma_fac_error_step(48, 0x1499bc508f7324, 0x1ee69a78d72cb6, 32, -73203169811, -73203169799, -109804754717, -109804754698);
    } else if n == 49 {
        lemma_fac_error_step(49, 0x1ee69a78d72cb6, 0x17a88e4484be3b, 64, -109804754717, -109804754698, -462026387379, -462026387363);
    } else {
        lemma_fac_error_step(50, 0x17a88e4484be3b, 0x127baf2587b49e, 64, -462026387379, -462026387363, -464037330244, -464037330231);
    }
}

/// The step of `lemma_fac_error_bounds` for the entries 51 to 60.
proof fn lemma_fac_error_bounds_51_to_60(n: nat)
    requires
        51 <= n <= 60,
        fac_error_between((n - 1) as nat, fac_error_low((n - 1) as nat), fac_error_high((n - 1) as nat)),
    ensures
        fac_error_between(n, fac_error_low(n), fac_error_high(n)),
{
    lemma2_to64();
    if n == 51 {
        lemma_fac_error_step(51, 0x127baf2587b49e, 0x1d751f23d047dd, 32, -464037330244, -464037330231, 566110562907, 566110562929);
    } else if n == 52 {
        lemma_fac_error_step(52, 0x1d751f23d047dd, 0x17ef294d193a63, 64, 566110562907, 566110562929, -158510458263, -158510458244);
    } else if n == 53 {
        lemma_fac_error_step(53, 0x17ef294d193a63, 0x13d20e33d8e45a, 64, -158510458263, -158510458244, -114086604066, -114086604049);
    } else if n == 54 {
        lemma_fac_error_step(54, 0x13d20e33d8e45a, 0x10b93bfbbf00ac, 64, -114086604066, -114086604049, -27541095445, -27541095430);
    } else if n == 55 {
        lemma_fac_error_step(55, 0x10b93bfbbf00ac, 0x1cbe5f18b04928, 32, -27541095445, -27541095430, 364980602619, 364980602646);
    } else if n == 56 {
        lemma_fac_error_step(56, 0x1cbe5f18b04928, 0x192693359a4003, 64, 364980602619, 364980602646, 319358027291, 319358027316);
    } else if n == 57 {
        lemma_fac_error_step(57, 0x192693359a4003, 0x16665b1bbd6102, 64, 319358027291, 319358027316, -454306131856, -454306131833);
    } else if n == 58 {
        lemma_fac_error_step(58, 0x16665b1bbd6102, 0x144cc291239fea, 64, -454306131856, -454306131833, -205556501787, -205556501765);
    } else if n == 59 {
        lemma_fac_error_step(59, 0x144cc291239fea, 0x12b6c35dccd76c, 64, -205556501787, -205556501765, 119740245227, 119740245248);
    } else {
        lemma_fac_error_step(60, 0x12b6c35dccd76c, 0x118b5727f009f5, 64, 119740245227, 119740245248, -162621427044, -162621427024);
    }
}

/// The step of `lemma_fac_error_bounds` for the entries 61 to 70.
proof fn lemma_fac_error_bounds_61_to_70(n: nat)
    requires
        61 <= n <= 70,
        fac_error_between((n - 1) as nat, fac_error_low((n - 1) as nat), fac_error_high((n - 1) as nat)),
    ensures
        fac_error_between(n, fac_error_low(n), fac_error_high(n)),
{
    lemma2_to64();
    if n == 61 {
        lemma_fac_error_step(61, 0x118b5727f009f5, 0x10b8cf1210c97e, 64, -162621427044, -162621427024, 377577397052, 377577397072);
    } else if n == 62 {
        lemma_fac_error_step(62, 0x10b8cf1210c97e, 0x10330899804332, 64, 377577397052, 377577397072, 297058626658, 297058626678);
    } else if n == 63 {
        lemma_fac_error_step(63, 0x10330899804332, 0x1fe478ee34844a, 32, 297058626658, 297058626678, 103797834080, 103797834121);
    } else if n == 64 {
        lemma_fac_error_step(64, 0x1fe478ee34844a, 0x1fe478ee34844a, 64, 103797834080, 103797834121, 103797834080, 103797834121);
    } else if n == 65 {
        lemma_fac_error_step(65, 0x1fe478ee34844a, 0x10320568f6ab2e, 128, 103797834080, 103797834121, 516566305586, 516566305608);
    } else if n == 66 {
        lemma_fac_error_step(66, 0x10320568f6ab2e, 0x10b395943e6087, 64, 516566305586, 516566305608, 51672665483, 51672665507);
    } else if n == 67 {
        lemma_fac_error_step(67, 0x10b395943e6087, 0x117c0097314d0d, 64, 51672665483, 51672665507, -306682431187, -306682431161);
    } else if n == 68 {
        lemma_fac_error_step(68, 0x117c0097314d0d, 0x1293c0a0a461de, 64, -306682431187, -306682431161, -119691652929, -119691652900);
    } else if n == 69 {
        lemma_fac_error_step(69, 0x1293c0a0a461de, 0x14074bad313983, 64, -119691652929, -119691652900, -506999685363, -506999685330);
    } else {
        lemma_fac_error_step(70, 0x14074bad313983, 0x15e7fac56dd6e8, 64, -506999685363, -506999685330, 235743076598, 235743076635);
    }
}

/// The step of `lemma_fac_error_bounds` for the entries 71 to 80.
proof fn lemma_fac_error_bounds_71_to_80(n: nat)
    requires
        71 <= n <= 80,
        fac_error_between((n - 1) as nat, fac_error_low((n - 1) as nat), fac_error_high((n - 1) as nat)),
    ensures
        fac_error_between(n, fac_error_low(n), fac_error_high(n)),
{
    lemma2_to64();
    if n == 71 {
        lemma_fac_error_step(71, 0x15e7fac56dd6e8, 0x184d5a3305da69, 64, 235743076598, 235743076635, -150789384816, -150789384774);
    } else if n == 72 {
        lemma_fac_error_step(72, 0x184d5a3305da69, 0x1b5705796695b6, 64, -150789384816, -150789384774, -307077011390, -307077011342);
    } else if n == 73 {
        lemma_fac_error_step(73, 0x1b5705796695b6, 0x1f2f423e7902c4, 64, -307077011390, -307077011342, 96416882667, 96416882723);
    } else if n == 74 {
        lemma_fac_error_step(74, 0x1f2f423e7902c4, 0x1207524c1df599, 128, 96416882667, 96416882723, -287856373389, -287856373355);
    } else if n == 75 {
        lemma_fac_error_step(75, 0x1207524c1df599, 0x15209471331bd0, 64, -287856373389, -287856373355, 435762425714, 435762425755);
    } else if n == 76 {
        lemma_fac_error_step(76, 0x15209471331bd0, 0x1916b0466cb107, 64, 435762425714, 435762425755, 517467880535, 517467880585);
    } else if n == 77 {
        lemma_fac_error_step(77, 0x1916b0466cb107, 0x1e2f4c14bac4fc, 64, 517467880535, 517467880585, 158722075800, 158722075861);
    } else if n == 78 {
        lemma_fac_error_step(78, 0x1e2f4c14bac4fc, 0x1264d25ca1d00a, 128, 158722075800, 158722075861, 577757602092, 577757602130);
    } else if n == 79 {
        lemma_fac_error_step(79, 0x1264d25ca1d00a, 0x16b473aa57bccc, 64, 577757602092, 577757602130, 335212418034, 335212418082);
    } else {
        lemma_fac_error_step(80, 0x16b473aa57bccc, 0x1c619094edabff, 64, 335212418034, 335212418082, 419015522542, 419015522603);
    }
}

/// The step of `lemma_fac_error_bounds` for the entries 81 to 90.
proof fn lemma_fac_error_bounds_81_to_90(n: nat)
    requires
        81 <= n <= 90,
        fac_error_between((n - 1) as nat, fac_error_low((n - 1) as nat), fac_error_high((n - 1) as nat)),
    ensures
        fac_error_between(n, fac_error_low(n), fac_error_high(n)),
{
    lemma2_to64();
    if n == 81 {
        lemma_fac_error_step(81, 0x1c619094edabff, 0x11f5bd7e3e66d7, 128, 419015522542, 419015522603, -138568665466, -138568665426);
    } else if n == 82 {
        lemma_fac_error_step(82, 0x11f5bd7e3e66d7, 0x1702dac9bff3c4, 64, -138568665466, -138568665426, 406574449627, 406574449679);
    } else if n == 83 {
        lemma_fac_error_step(83, 0x1702dac9bff3c4, 0x1dd7b3bda4f022, 64, 406574449627, 406574449679, 321117809152, 321117809220);
    } else if n == 84 {
        lemma_fac_error_step(84, 0x1dd7b3bda4f022, 0x13958df4743d96, 128, 321117809152, 321117809220, -132863821424, -132863821379);
    } else if n == 85 {
        lemma_fac_error_step(85, 0x13958df4743d96, 0x1a02a088aa61cb, 64, -132863821424, -132863821379, -416977931405, -416977931344);
    } else if n == 86 {
        lemma_fac_error_step(86, 0x1a02a088aa61cb, 0x1179c3dbd279b5, 128, -416977931405, -416977931344, 389857850513, 389857850555);
    } else if n == 87 {
        lemma_fac_error_step(87, 0x1179c3dbd279b5, 0x17c1863ed21d72, 64, 389857850513, 389857850555, 478423407989, 478423408047);
    } else if n == 88 {
        lemma_fac_error_step(88, 0x17c1863ed21d72, 0x10550c4b30743e, 128, 478423407989, 478423408047, -83400767424, -83400767383);
    } else if n == 89 {
        lemma_fac_error_step(89, 0x10550c4b30743e, 0x16b645188f61a6, 64, -83400767424, -83400767383, -356497360775, -356497360717);
    } else {
        lemma_fac_error_step(90, 0x16b645188f61a6, 0x1ff0512a89a152, 64, -356497360775, -356497360717, 117150877034, 117150877116);
    }
}

/// The step of `lemma_fac_error_bounds` for the entries 91 to 100.
proof fn lemma_fac_error_bounds_91_to_100(n: nat)
    requires
        91 <= n <= 100,
        fac_error_between((n - 1) as nat, fac_error_low((n - 1) as nat), fac_error_high((n - 1) as nat)),
    ensures
        fac_error_between(n, fac_error_low(n), fac_error_high(n)),
{
    lemma2_to64();
    if n == 91 {
        lemma_fac_error_step(91, 0x1ff0512a89a152, 0x16b4d9b43dd8b0, 128, 117150877034, 117150877116, -243130562855, -243130562796);
    } else if n == 92 {
        lemma_fac_error_step(92, 0x16b4d9b43dd8b0, 0x1051fc798c73bf, 128, -243130562855, -243130562796, 375005721835, 375005721879);
    } else if n == 93 {
        lemma_fac_error_step(93, 0x1051fc798c73bf, 0x17b722e0a01831, 64, 375005721835, 375005721879, -56365231899, -56365231834);
    } else if n == 94 {
        lemma_fac_error_step(94, 0x17b722e0a01831, 0x116a7d9cf591c4, 128, -56365231899, -56365231834, -24213347992, -24213347944);
    } else if n == 95 {
        lemma_fac_error_step(95, 0x116a7d9cf591c4, 0x19da1274fc845f, 64, -24213347992, -24213347944, 32777788310, 32777788382);
    } else if n == 96 {
        lemma_fac_error_step(96, 0x19da1274fc845f, 0x13638dd7bd6347, 128, 32777788310, 32777788382, -250294565712, -250294565657);
    } else if n == 97 {
        lemma_fac_error_step(97, 0x13638dd7bd6347, 0x1d62e2fafb0a78, 64, -250294565712, -250294565657, 50144028442, 50144028527);
    } else if n == 98 {
        lemma_fac_error_step(98, 0x1d62e2fafb0a78, 0x167fb5c8283404, 128, 50144028442, 50144028527, 175830475247, 175830475313);
    } else if n == 99 {
        lemma_fac_error_step(99, 0x167fb5c8283404, 0x1166c698cf183b, 128, 175830475247, 175830475313, 32914668094, 32914668146);
    } else {
        lemma_fac_error_step(100, 0x1166c698cf183b, 0x1b30964ec395dc, 64, 32914668094, 32914668146, -154729261312, -154729261229);
    }
}

/// The step of `lemma_fac_error_bounds` for the entries 101 to 110.
proof fn lemma_fac_error_bounds_101_to_110(n: nat)
    requires
        101 <= n <= 110,
        fac_error_between((n - 1) as nat, fac_error_low((n - 1) as nat), fac_error_high((n - 1) as nat)),
    ensures
        fac_error_between(n, fac_error_low(n), fac_error_high(n)),
{
    lemma2_to64();
    if n == 101 {
        lemma_fac_error_step(101, 0x1b30964ec395dc, 0x1574569a265440, 128, -154729261312, -154729261229, 324585541030, 324585541096);
    } else if n == 102 {
        lemma_fac_error_step(102, 0x1574569a265440, 0x1118b502d68b23, 128, 324585541030, 324585541096, 258654103008, 258654103061);
    } else if n == 103 {
        lemma_fac_error_step(103, 0x1118b502d68b23, 0x1b83c3509147ec, 64, 258654103008, 258654103061, 55494194164, 55494194250);
    } else if n == 104 {
        lemma_fac_error_step(104, 0x1b83c3509147ec, 0x165b0eb1760a70, 128, 55494194164, 55494194250, 319966939702, 319966939773);
    } else if n == 105 {
        lemma_fac_error_step(105, 0x165b0eb1760a70, 0x1256b20d92d490, 128, 319966939702, 319966939773, 399911833696, 399911833755);
    } else if n == 106 {
        lemma_fac_error_step(106, 0x1256b20d92d490, 0x1e5f96e67b300e, 64, 399911833696, 399911833755, 112598160671, 112598160769);
    } else if n == 107 {
        lemma_fac_error_step(107, 0x1e5f96e67b300e, 0x1963e824aafa2b, 128, 112598160671, 112598160769, -678969088345, -678969088262);
    } else if n == 108 {
        lemma_fac_error_step(108, 0x1963e824aafa2b, 0x156c4bdef04315, 128, -678969088345, -678969088262, 217393814172, 217393814243);
    } else if n == 109 {
        lemma_fac_error_step(109, 0x156c4bdef04315, 0x123e389bd89920, 128, 217393814172, 217393814243, 313973438760, 313973438822);
    } else {
        lemma_fac_error_step(110, 0x123e389bd89920, 0x1f5af14bdc472e, 64, 313973438760, 313973438822, -559869779908, -559869779800);
    }
}

/// The step of `lemma_fac_error_bounds` for the entries 111 to 120.
proof fn lemma_fac_error_bounds_111_to_120(n: nat)
    requires
        111 <= n <= 120,
        fac_error_between((n - 1) as nat, fac_error_low((n - 1) as nat), fac_error_high((n - 1) as nat)),
    ensures
        fac_error_between(n, fac_error_low(n), fac_error_high(n)),
{
    lemma2_to64();
    if n == 111 {
        lemma_fac_error_step(111, 0x1f5af14bdc472e, 0x1b30dd3fc905ba, 128, -559869779908, -559869779800, -365252990476, -365252990382);
    } else if n == 112 {
        lemma_fac_error_step(112, 0x1b30dd3fc905ba, 0x17cac197cfe503, 128, -365252990476, -365252990382, -44718459723, -44718459640);
    } else if n == 113 {
        lemma_fac_error_step(113, 0x17cac197cfe503, 0x1500fee805882d, 128, -44718459723, -44718459640, 347069041415, 347069041490);
    } else if n == 114 {
        lemma_fac_error_step(114, 0x1500fee805882d, 0x12b4e306a4ed48, 128, 347069041415, 347069041490, 223209019090, 223209019158);
    } else if n == 115 {
        lemma_fac_error_step(115, 0x12b4e306a4ed48, 0x10ce83f7f82d2f, 128, 223209019090, 223209019158, 544136736768, 544136736830);
    } else if n == 116 {
        lemma_fac_error_step(116, 0x10ce83f7f82d2f, 0x1e764f3171d1e4, 64, 544136736768, 544136736830, -319422222592, -319422222479);
    } else if n == 117 {
        lemma_fac_error_step(117, 0x1e764f3171d1e4, 0x1bd824633209db, 128, -319422222592, -319422222479, 360863153654, 360863153758);
    } else if n == 118 {
        lemma_fac_error_step(118, 0x1bd824633209db, 0x19ab418b722116, 128, 360863153654, 360863153758, 452929804062, 452929804159);
    } else if n == 119 {
        lemma_fac_error_step(119, 0x19ab418b722116, 0x17dd36efa41ac2, 128, 452929804062, 452929804159, -77133029123, -77133029031);
    } else {
        lemma_fac_error_step(120, 0x17dd36efa41ac2, 0x165f6380a9d916, 128, -77133029123, -77133029031, 65126738669, 65126738756);
    }
}

/// The step of `lemma_fac_error_bounds` for the entries 121 to 130.
proof fn lemma_fac_error_bounds_121_to_130(n: nat)
    requires
        121 <= n <= 130,
        fac_error_between((n - 1) as nat, fac_error_low((n - 1) as nat), fac_error_high((n - 1) as nat)),
    ensures
        fac_error_between(n, fac_error_low(n), fac_error_high(n)),
{
    lemma2_to64();
    if n == 121 {
        lemma_fac_error_step(121, 0x165f6380a9d916, 0x15262c0fa08f37, 128, 65126738669, 65126738756, 284903419540, 284903419623);
    } else if n == 122 {
        lemma_fac_error_step(122, 0x15262c0fa08f37, 0x142861fee50880, 128, 284903419540, 284903419623, -192307896219, -192307896139);
    } else if n == 123 {
        lemma_fac_error_step(123, 0x142861fee50880, 0x135ece2af0162b, 128, -192307896219, -192307896139, -184795869023, -184795868946);
    } else if n == 124 {
        lemma_fac_error_step(124, 0x135ece2af0162b, 0x12c3d7b998957a, 128, -184795869023, -184795868946, 198936123931, 198936124007);
    } else if n == 125 {
        lemma_fac_error_step(125, 0x12c3d7b998957a, 0x125340ab3f01f9, 128, 198936123931, 198936124007, 39654735870, 39654735945);
    } else if n == 126 {
        lemma_fac_error_step(126, 0x125340ab3f01f9, 0x1209f3a89205f1, 128, 39654735870, 39654735945, -81223953666, -81223953592);
    } else if n == 127 {
        lemma_fac_error_step(127, 0x1209f3a89205f1, 0x11e5dfc140e1e5, 128, -81223953666, -81223953592, -209438410408, -209438410334);
    } else if n == 128 {
        lemma_fac_error_step(128, 0x11e5dfc140e1e5, 0x11e5dfc140e1e5, 128, -209438410408, -209438410334, -209438410408, -209438410334);
    } else if n == 129 {
        lemma_fac_error_step(129, 0x11e5dfc140e1e5, 0x1209ab80c363a9, 128, -209438410408, -209438410334, 20853585994, 20853586070);
    } else {
        lemma_fac_error_step(130, 0x1209ab80c363a9, 0x1251d22ec67138, 128, 20853585994, 20853586070, 416316414507, 416316414585);
    }
}

/// The step of `lemma_fac_error_bounds` for the entries 131 to 140.
proof fn lemma_fac_error_bounds_131_to_140(n: nat)
    requires
        131 <= n <= 140,
        fac_error_between((n - 1) as nat, fac_error_low((n - 1) as nat), fac_error_high((n - 1) as nat)),
    ensures
        fac_error_between(n, fac_error_low(n), fac_error_high(n)),
{
    lemma2_to64();
    if n == 131 {
        lemma_fac_error_step(131, 0x1251d22ec67138, 0x12bfbd1bdf17df, 128, 416316414507, 416316414585, 82476446792, 82476446872);
    } else if n == 132 {
        lemma_fac_error_step(132, 0x12bfbd1bdf17df, 0x1355bb04be109e, 128, 82476446792, 82476446872, 119413574122, 119413574205);
    } else if n == 133 {
        lemma_fac_error_step(133, 0x1355bb04be109e, 0x14171452ed7d44, 128, 119413574122, 119413574205, -64900394163, -64900394076);
    } else if n == 134 {
        lemma_fac_error_step(134, 0x14171452ed7d44, 0x15082946d09f23, 128, -64900394163, -64900394076, -274101030348, -274101030256);
    } else if n == 135 {
        lemma_fac_error_step(135, 0x15082946d09f23, 0x162e9b88b007d7, 128, -274101030348, -274101030256, -194601649934, -194601649836);
    } else if n == 136 {
        lemma_fac_error_step(136, 0x162e9b88b007d7, 0x179185413b0855, 128, -194601649934, -194601649836, 411711037569, 411711037674);
    } else if n == 137 {
        lemma_fac_error_step(137, 0x179185413b0855, 0x1939c09fd12eeb, 128, 411711037569, 411711037674, 466429273674, 466429273787);
    } else if n == 138 {
        lemma_fac_error_step(138, 0x1939c09fd12eeb, 0x1b3243ac4d8695, 128, 466429273674, 466429273787, 107732069447, 107732069570);
    } else if n == 139 {
        lemma_fac_error_step(139, 0x1b3243ac4d8695, 0x1d88957d1c3026, 128, 107732069447, 107732069570, 331738658965, 331738659099);
    } else {
        lemma_fac_error_step(140, 0x1d88957d1c3026, 0x1026b1c06b6a55, 256, 331738658965, 331738659099, 421937747697, 421937747771);
    }
}

/// The step of `lemma_fac_error_bounds` for the entries 141 to 150.
proof fn lemma_fac_error_bounds_141_to_150(n: nat)
    requires
        141 <= n <= 150,
        fac_error_between((n - 1) as nat, fac_error_low((n - 1) as nat), fac_error_high((n - 1) as nat)),
    ensures
        fac_error_between(n, fac_error_low(n), fac_error_high(n)),
{
    lemma2_to64();
    if n == 141 {
        lemma_fac_error_step(141, 0x1026b1c06b6a55, 0x11ca9fcdf65321, 128, 421937747697, 421937747771, -230993901755, -230993901673);
    } else if n == 142 {
        lemma_fac_error_step(142, 0x11ca9fcdf65321, 0x13bcc9487d4439, 128, -230993901755, -230993901673, 173237869840, 173237869932);
    } else if n == 143 {
        lemma_fac_error_step(143, 0x13bcc9487d4439, 0x160ce8defbf238, 128, 173237869840, 173237869932, 545726500983, 545726501087);
    } else if n == 144 {
        lemma_fac_error_step(144, 0x160ce8defbf238, 0x18ce85fadb707e, 128, 545726500983, 545726501087, -485569314171, -485569314053);
    } else if n == 145 {
        lemma_fac_error_step(145, 0x18ce85fadb707e, 0x1c19f3c62c956f, 128, -485569314171, -485569314053, -258001212582, -258001212447);
    } else if n == 146 {
        lemma_fac_error_step(146, 0x1c19f3c62c956f, 0x1006cd07056d39, 256, -258001212582, -258001212447, -482148765639, -482148765561);
    } else if n == 147 {
        lemma_fac_error_step(147, 0x1006cd07056d39, 0x1267cf76103b70, 128, -482148765639, -482148765561, 38987763809, 38987763900);
    } else if n == 148 {
        lemma_fac_error_step(148, 0x1267cf76103b70, 0x154807e082c4b9, 128, 38987763809, 38987763900, -504676211984, -504676211878);
    } else if n == 149 {
        lemma_fac_error_step(149, 0x154807e082c4b9, 0x18c5d92b583900, 128, -504676211984, -504676211878, 125489918123, 125489918247);
    } else {
        lemma_fac_error_step(150, 0x18c5d92b583900, 0x1d07da7ecb62cc, 128, 125489918123, 125489918247, 147058497800, 147058497946);
    }
}

/// The step of `lemma_fac_error_bounds` for the entries 151 to 160.
proof fn lemma_fac_error_bounds_151_to_160(n: nat)
    requires
        151 <= n <= 160,
        fac_error_between((n - 1) as nat, fac_error_low((n - 1) as nat), fac_error_high((n - 1) as nat)),
    ensures
        fac_error_between(n, fac_error_low(n), fac_error_high(n)),
{
    lemma2_to64();
    if n == 151 {
        lemma_fac_error_step(151, 0x1d07da7ecb62cc, 0x111fa1e0c9f746, 256, 147058497800, 147058497946, -274035717053, -274035716966);
    } else if n == 152 {
        lemma_fac_error_step(152, 0x111fa1e0c9f746, 0x1455903aefd5a3, 128, -274035717053, -274035716966, -462856367473, -462856367369);
    } else if n == 153 {
        lemma_fac_error_step(153, 0x1455903aefd5a3, 0x184e466672ad5d, 128, -462856367473, -462856367369, -372869375314, -372869375188);
    } else if n == 154 {
        lemma_fac_error_step(154, 0x184e466672ad5d, 0x1d3e2cb341f894, 128, -372869375314, -372869375188, -328349382887, -328349382735);
    } else if n == 155 {
        lemma_fac_error_step(155, 0x1d3e2cb341f894, 0x11b4a51088f182, 256, -328349382887, -328349382735, 230691439180, 230691439273);
    } else if n == 156 {
        lemma_fac_error_step(156, 0x11b4a51088f182, 0x1594292c26e656, 128, 230691439180, 230691439273, -199881145652, -199881145538);
    } else if n == 157 {
        lemma_fac_error_step(157, 0x1594292c26e656, 0x1a77ba8027b686, 128, -199881145652, -199881145538, 321768965358, 321768965499);
    } else if n == 158 {
        lemma_fac_error_step(158, 0x1a77ba8027b686, 0x1055e51b1882a7, 256, 321768965358, 321768965499, 525009297802, 525009297890);
    } else if n == 159 {
        lemma_fac_error_step(159, 0x1055e51b1882a7, 0x144ab297a8724b, 128, 525009297802, 525009297890, 162533715369, 162533715479);
    } else {
        lemma_fac_error_step(160, 0x144ab297a8724b, 0x195d5f3d928ede, 128, 162533715369, 162533715479, 478045051155, 478045051293);
    }
}

/// The step of `lemma_fac_error_bounds` for the entries 161 to 170.
proof fn lemma_fac_error_bounds_161_to_170(n: nat)
    requires
        161 <= n <= 170,
        fac_error_between((n - 1) as nat, fac_error_low((n - 1) as nat), fac_error_high((n - 1) as nat)),
    ensures
        fac_error_between(n, fac_error_low(n), fac_error_high(n)),
{
    lemma2_to64();
    if n == 161 {
        lemma_fac_error_step(161, 0x195d5f3d928ede, 0x1fe771cb7257b3, 128, 478045051155, 478045051293, 343593003145, 343593003320);
    } else if n == 162 {
        lemma_fac_error_step(162, 0x1fe771cb7257b3, 0x14307602be5b7f, 256, 343593003145, 343593003320, -83217763418, -83217763306);
    } else if n == 163 {
        lemma_fac_error_step(163, 0x14307602be5b7f, 0x19b5b6477e6884, 128, -83217763418, -83217763306, 194675090117, 194675090261);
    } else if n == 164 {
        lemma_fac_error_step(164, 0x19b5b6477e6884, 0x107868c5ccfaf4, 256, 194675090117, 194675090261, -493761561018, -493761560925);
    } else if n == 165 {
        lemma_fac_error_step(165, 0x107868c5ccfaf4, 0x153b370efa3b7f, 128, -493761561018, -493761560925, -121093436730, -121093436609);
    } else if n == 166 {
        lemma_fac_error_step(166, 0x153b370efa3b7f, 0x1b88cb676c8529, 128, -121093436730, -121093436609, 169374463736, 169374463894);
    } else if n == 167 {
        lemma_fac_error_step(167, 0x1b88cb676c8529, 0x11f63cb077cade, 256, 169374463736, 169374463894, 389663247067, 389663247171);
    } else if n == 168 {
        lemma_fac_error_step(168, 0x11f63cb077cade, 0x17932fa79d3a43, 128, 389663247067, 389663247171, 99116151359, 99116151496);
    } else if n == 169 {
        lemma_fac_error_step(169, 0x17932fa79d3a43, 0x1f2054eb4d96ec, 128, 99116151359, 99116151496, -375941847337, -375941847155);
    } else {
        lemma_fac_error_step(170, 0x1f2054eb4d96ec, 0x14ab7864418639, 256, -375941847337, -375941847155, 59588762314, 59588762436);
    }
}

/// The error of every entry lies between its bounds.
pub proof fn lemma_fac_error_bounds(n: nat)
    requires
        n <= 170,
    ensures
        fac_error_between(n, fac_error_low(n), fac_error_high(n)),
    decreases n,
{
    if n == 0 {
        lemma_power_of_two(b64(ONE), 1023);
        assert(factorial(0) == 1);
    } else {
        lemma_fac_error_bounds((n - 1) as nat);
        if n <= 10 {
            lemma_fac_error_bounds_1_to_10(n);
        } else if n <= 20 {
            lemma_fac_error_bounds_11_to_20(n);
        } else if n <= 30 {
            lemma_fac_error_bounds_21_to_30(n);
        } else if n <= 40 {
            lemma_fac_error_bounds_31_to_40(n);
        } else if n <= 50 {
            lemma_fac_error_bounds_41_to_50(n);
        } else if n <= 60 {
            lemma_fac_error_bounds_51_to_60(n);
        } else if n <= 70 {
            lemma_fac_error_bounds_61_to_70(n);
        } else if n <= 80 {
            lemma_fac_error_bounds_71_to_80(n);
        } else if n <= 90 {
            lemma_fac_error_bounds_81_to_90(n);
        } else if n <= 100 {
            lemma_fac_error_bounds_91_to_100(n);
        } else if n <= 110 {
            lemma_fac_error_bounds_101_to_110(n);
        } else if n <= 120 {
            lemma_fac_error_bounds_111_to_120(n);
        } else if n <= 130 {
            lemma_fac_error_bounds_121_to_130(n);
        } else if n <= 140 {
            lemma_fac_error_bounds_131_to_140(n);
        } else if n <= 150 {
            lemma_fac_error_bounds_141_to_150(n);
        } else if n <= 160 {
            lemma_fac_error_bounds_151_to_160(n);
        } else {
            lemma_fac_error_bounds_161_to_170(n);
        }
    }
}

/// Every entry of the table is `n!` to within one unit in its last place.
pub proof fn lemma_fac_rounded(n: nat)
    requires
        n <= 170,
    ensures
        -fac_spec(n as int).ulp() < fac_error(n) < fac_spec(n as int).ulp(),
{
    lemma_fac_error_bounds(n);
    let unit = fac_spec(n as int).ulp() as int;
    let low = fac_error_low(n);
    let high = fac_error_high(n);
    let error = fac_error(n);
    let k = parts();
    assert(-k < low && high < k);
    assert(unit > 0) by {
        lemma_pow2_pos((fac_spec(n as int).exponent() - 1) as nat);
    }
    assert(-unit < error < unit) by (nonlinear_arith)
        requires
            low * unit <= error * k,
            error * k <= high * unit,
            -k < low,
            high < k,
            k > 0,
            unit > 0,
    ;
}

/// The error of the table of the reciprocals at `n`, multiplied by `n!` so
/// that it is a whole number of units of 2^-1074: the entry times `n!`,
/// less 1.
pub open spec fn inv_fac_error(n: nat) -> int {
    inv_fac_spec(n as int).scaled() * factorial(n) - pow2(1074)
}

/// A lower bound of the error of the reciprocal at `n`, in parts of a unit in
/// the last place of the entry.
pub open spec fn inv_fac_error_low(n: nat) -> int {
    if n == 0 {
        0
    } else if n == 1 {
        0
    } else if n == 2 {
        0
    } else if n == 3 {
        -366503875926
    } else if n == 4 {
        -366503875926
    } else if n == 5 {
        -73300775186
    } else if n == 6 {
        268769509010
    } else if n == 7 {
        -6981026211
    } else if n == 8 {
        -6981026211
    } else if n == 9 {
        482466477935
    } else if n == 10 {
        605875507903
    } else if n == 11 {
        481451055940
    } else if n == 12 {
        320967370626
    } else if n == 13 {
        564192398889
    } else if n == 14 {
        -140574135396
    } else if n == 15 {
        -76644969238
    } else if n == 16 {
        -76644969238
    } else if n == 17 {
        639312258689
    } else if n == 18 {
        -531234064497
    } else if n == 19 {
        -158009836478
    } else if n == 20 {
        -32913412810
    } else if n == 21 {
        -601011548119
    } else if n == 22 {
        462501115002
    } else if n == 23 {
        165431278361
    } else if n == 24 {
        220575037814
    } else if n == 25 {
        185148489312
    } else if n == 26 {
        397030698811
    } else if n == 27 {
        -140284890915
    } else if n == 28 {
        -237235884491
    } else if n == 29 {
        572334741633
    } else if n == 30 {
        -415720461516
    } else if n == 31 {
        -287258330885
    } else if n == 32 {
        -287258330885
    } else if n == 33 {
        321180082171
    } else if n == 34 {
        -85775791290
    } else if n == 35 {
        -172667434418
    } else if n == 36 {
        -184796369213
    } else if n == 37 {
        48191826476
    } else if n == 38 {
        98451623757
    } else if n == 39 {
        137166031173
    } else if n == 40 {
        -436675679
    } else if n == 41 {
        241015390933
    } else if n == 42 {
        -235230798442
    } else if n == 43 {
        -196690728690
    } else if n == 44 {
        -342959007734
    } else if n == 45 {
        489579747023
    } else if n == 46 {
        -424300438785
    } else if n == 47 {
        311196037728
    } else if n == 48 {
        -525543726699
    } else if n == 49 {
        166258027484
    } else if n == 50 {
        -139033445709
    } else if n == 51 {
        -238150032493
    } else if n == 52 {
        129781355307
    } else if n == 53 {
        -278938442333
    } else if n == 54 {
        239523430896
    } else if n == 55 {
        -180498841014
    } else if n == 56 {
        -520430569095
    } else if n == 57 {
        13636912964
    } else if n == 58 {
        -60780760025
    } else if n == 59 {
        -550462219726
    } else if n == 60 {
        585652701920
    } else if n == 61 {
        -394932430043
    } else if n == 62 {
        479030739774
    } else if n == 63 {
        313127463236
    } else if n == 64 {
        313127463236
    } else if n == 65 {
        -9255614362
    } else if n == 66 {
        -208886346250
    } else if n == 67 {
        473302247445
    } else if n == 68 {
        186752320471
    } else if n == 69 {
        -241089185682
    } else if n == 70 {
        470697196264
    } else if n == 71 {
        -334527453523
    } else if n == 72 {
        191314098102
    } else if n == 73 {
        -43137815211
    } else if n == 74 {
        -44900230966
    } else if n == 75 {
        269548392019
    } else if n == 76 {
        -293833177773
    } else if n == 77 {
        -501253671136
    } else if n == 78 {
        305134106624
    } else if n == 79 {
        24511351639
    } else if n == 80 {
        -200293244244
    } else if n == 81 {
        715127758614
    } else if n == 82 {
        75436072577
    } else if n == 83 {
        -140539346648
    } else if n == 84 {
        152348681033
    } else if n == 85 {
        -325095055980
    } else if n == 86 {
        -151451916783
    } else if n == 87 {
        78158066006
    } else if n == 88 {
        113684459645
    } else if n == 89 {
        328831887334
    } else if n == 90 {
        233836008770
    } else if n == 91 {
        111426371676
    } else if n == 92 {
        59418288612
    } else if n == 93 {
        -18223523309
    } else if n == 94 {
        -48208874885
    } else if n == 95 {
        361031866860
    } else if n == 96 {
        481375822480
    } else if n == 97 {
        340279132930
    } else if n == 98 {
        579080291309
    } else if n == 99 {
        -550712961235
    } else if n == 100 {
        43367890808
    } else if n == 101 {
        -434920130956
    } else if n == 102 {
        -49923940046
    } else if n == 103 {
        -425990896997
    } else if n == 104 {
        -16829583485
    } else if n == 105 {
        408817048121
    } else if n == 106 {
        433542456412
    } else if n == 107 {
        354217274545
    } else if n == 108 {
        -150304074201
    } else if n == 109 {
        -388336382395
    } else if n == 110 {
        -325896770464
    } else if n == 111 {
        -217320725901
    } else if n == 112 {
        65779635477
    } else if n == 113 {
        -256315061977
    } else if n == 114 {
        -94895573488
    } else if n == 115 {
        -344647166095
    } else if n == 116 {
        -190150160605
    } else if n == 117 {
        -1281749969
    } else if n == 118 {
        -57297743752
    } else if n == 119 {
        -551329642626
    } else if n == 120 {
        -74979525839
    } else if n == 121 {
        420460828266
    } else if n == 122 {
        747560502970
    } else if n == 123 {
        -339440724324
    } else if n == 124 {
        -492262893209
    } else if n == 125 {
        -363339714291
    } else if n == 126 {
        -561085232067
    } else if n == 127 {
        -323091213598
    } else if n == 128 {
        -323091213598
    } else if n == 129 {
        -380250052210
    } else if n == 130 {
        234560234746
    } else if n == 131 {
        -56180803794
    } else if n == 132 {
        278706986556
    } else if n == 133 {
        -500602158677
    } else if n == 134 {
        -149974710445
    } else if n == 135 {
        -484268528175
    } else if n == 136 {
        385020865311
    } else if n == 137 {
        -531117663674
    } else if n == 138 {
        -157996902781
    } else if n == 139 {
        44350183529
    } else if n == 140 {
        -264463318848
    } else if n == 141 {
        134221654756
    } else if n == 142 {
        508140515475
    } else if n == 143 {
        -383250219908
    } else if n == 144 {
        -462834820783
    } else if n == 145 {
        23650384296
    } else if n == 146 {
        192087198186
    } else if n == 147 {
        227096968639
    } else if n == 148 {
        -189906707153
    } else if n == 149 {
        -532104965802
    } else if n == 150 {
        -248820733633
    } else if n == 151 {
        -123298881267
    } else if n == 152 {
        -277437735979
    } else if n == 153 {
        -2141556317
    } else if n == 154 {
        -587234238223
    } else if n == 155 {
        -104461589655
    } else if n == 156 {
        337177014043
    } else if n == 157 {
        -271358274962
    } else if n == 158 {
        -578847790797
    } else if n == 159 {
        391490091963
    } else if n == 160 {
        -346514903096
    } else if n == 161 {
        202558424521
    } else if n == 162 {
        -19263115503
    } else if n == 163 {
        -28617803926
    } else if n == 164 {
        545310155117
    } else if n == 165 {
        -203359958522
    } else if n == 166 {
        -117066294724
    } else if n == 167 {
        459183571526
    } else if n == 168 {
        -121365119313
    } else if n == 169 {
        -241559187639
    } else if n == 170 {
        -1567652237
    } else if n == 171 {
        488635164339
    } else if n == 172 {
        130691091394
    } else if n == 173 {
        -113644613923
    } else if n == 174 {
        -341880876517
    } else if n == 175 {
        -215573006977
    } else if n == 176 {
        292394735786
    } else {
        243917221576
    }
}

/// An upper bound of the error of the reciprocal at `n`, in parts of a unit in
/// the last place of the entry.
pub open spec fn inv_fac_error_high(n: nat) -> int {
    if n == 0 {
        0
    } else if n == 1 {
        0
    } else if n == 2 {
        0
    } else if n == 3 {
        -366503875925
    } else if n == 4 {
        -366503875925
    } else if n == 5 {
        -73300775184
    } else if n == 6 {
        268769509014
    } else if n == 7 {
        -6981026205
    } else if n == 8 {
        -6981026205
    } else if n == 9 {
        482466477941
    } else if n == 10 {
        605875507908
    } else if n == 11 {
        481451055948
    } else if n == 12 {
        320967370632
    } else if n == 13 {
        564192398898
    } else if n == 14 {
        -140574135385
    } else if n == 15 {
        -76644969225
    } else if n == 16 {
        -76644969225
    } else if n == 17 {
        639312258703
    } else if n == 18 {
        -531234064484
    } else if n == 19 {
        -158009836466
    } else if n == 20 {
        -32913412790
    } else if n == 21 {
        -601011548103
    } else if n == 22 {
        462501115015
    } else if n == 23 {
        165431278380
    } else if n == 24 {
        220575037840
    } else if n == 25 {
        185148489329
    } else if n == 26 {
        397030698832
    } else if n == 27 {
        -140284890889
    } else if n == 28 {
        -237235884476
    } else if n == 29 {
        572334741650
    } else if n == 30 {
        -415720461497
    } else if n == 31 {
        -287258330864
    } else if n == 32 {
        -287258330864
    } else if n == 33 {
        321180082192
    } else if n == 34 {
        -85775791269
    } else if n == 35 {
        -172667434398
    } else if n == 36 {
        -184796369176
    } else if n == 37 {
        48191826509
    } else if n == 38 {
        98451623786
    } else if n == 39 {
        137166031198
    } else if n == 40 {
        -436675638
    } else if n == 41 {
        241015390966
    } else if n == 42 {
        -235230798416
    } else if n == 43 {
        -196690728650
    } else if n == 44 {
        -342959007704
    } else if n == 45 {
        489579747067
    } else if n == 46 {
        -424300438754
    } else if n == 47 {
        311196037771
    } else if n == 48 {
        -525543726670
    } else if n == 49 {
        166258027523
    } else if n == 50 {
        -139033445658
    } else if n == 51 {
        -238150032460
    } else if n == 52 {
        129781355348
    } else if n == 53 {
        -278938442283
    } else if n == 54 {
        239523430956
    } else if n == 55 {
        -180498840978
    } else if n == 56 {
        -520430569053
    } else if n == 57 {
        13636913012
    } else if n == 58 {
        -60780759971
    } else if n == 59 {
        -550462219666
    } else if n == 60 {
        585652701984
    } else if n == 61 {
        -394932429975
    } else if n == 62 {
        479030739846
    } else if n == 63 {
        313127463273
    } else if n == 64 {
        313127463273
    } else if n == 65 {
        -9255614288
    } else if n == 66 {
        -208886346177
    } else if n == 67 {
        473302247515
    } else if n == 68 {
        186752320538
    } else if n == 69 {
        -241089185619
    } else if n == 70 {
        470697196322
    } else if n == 71 {
        -334527453470
    } else if n == 72 {
        191314098150
    } else if n == 73 {
        -43137815168
    } else if n == 74 {
        -44900230891
    } else if n == 75 {
        269548392084
    } else if n == 76 {
        -293833177717
    } else if n == 77 {
        -501253671089
    } else if n == 78 {
        305134106702
    } else if n == 79 {
        24511351703
    } else if n == 80 {
        -200293244192
    } else if n == 81 {
        715127758697
    } else if n == 82 {
        75436072643
    } else if n == 83 {
        -140539346596
    } else if n == 84 {
        152348681113
    } else if n == 85 {
        -325095055919
    } else if n == 86 {
        -151451916691
    } else if n == 87 {
        78158066074
    } else if n == 88 {
        113684459744
    } else if n == 89 {
        328831887407
    } else if n == 90 {
        233836008823
    } else if n == 91 {
        111426371752
    } else if n == 92 {
        59418288718
    } else if n == 93 {
        -18223523235
    } else if n == 94 {
        -48208874783
    } else if n == 95 {
        361031866930
    } else if n == 96 {
        481375822574
    } else if n == 97 {
        340279132993
    } else if n == 98 {
        579080291392
    } else if n == 99 {
        -550712961127
    } else if n == 100 {
        43367890879
    } else if n == 101 {
        -434920130865
    } else if n == 102 {
        -49923939931
    } else if n == 103 {
        -425990896925
    } else if n == 104 {
        -16829583395
    } else if n == 105 {
        408817048232
    } else if n == 106 {
        433542456480
    } else if n == 107 {
        354217274627
    } else if n == 108 {
        -150304074103
    } else if n == 109 {
        -388336382279
    } else if n == 110 {
        -325896770396
    } else if n == 111 {
        -217320725822
    } else if n == 112 {
        65779635568
    } else if n == 113 {
        -256315061873
    } else if n == 114 {
        -94895573370
    } else if n == 115 {
        -344647165963
    } else if n == 116 {
        -190150160531
    } else if n == 117 {
        -1281749888
    } else if n == 118 {
        -57297743663
    } else if n == 119 {
        -551329642529
    } else if n == 120 {
        -74979525735
    } else if n == 121 {
        420460828377
    } else if n == 122 {
        747560503088
    } else if n == 123 {
        -339440724201
    } else if n == 124 {
        -492262893081
    } else if n == 125 {
        -363339714159
    } else if n == 126 {
        -561085231931
    } else if n == 127 {
        -323091213460
    } else if n == 128 {
        -323091213460
    } else if n == 129 {
        -380250052072
    } else if n == 130 {
        234560234882
    } else if n == 131 {
        -56180803660
    } else if n == 132 {
        278706986687
    } else if n == 133 {
        -500602158550
    } else if n == 134 {
        -149974710323
    } else if n == 135 {
        -484268528058
    } else if n == 136 {
        385020865422
    } else if n == 137 {
        -531117663570
    } else if n == 138 {
        -157996902683
    } else if n == 139 {
        44350183621
    } else if n == 140 {
        -264463318679
    } else if n == 141 {
        134221654911
    } else if n == 142 {
        508140515616
    } else if n == 143 {
        -383250219781
    } else if n == 144 {
        -462834820669
    } else if n == 145 {
        23650384398
    } else if n == 146 {
        192087198366
    } else if n == 147 {
        227096968797
    } else if n == 148 {
        -189906707015
    } else if n == 149 {
        -532104965682
    } else if n == 150 {
        -248820733530
    } else if n == 151 {
        -123298881091
    } else if n == 152 {
        -277437735830
    } else if n == 153 {
        -2141556192
    } else if n == 154 {
        -587234238118
    } else if n == 155 {
        -104461589480
    } else if n == 156 {
        337177014187
    } else if n == 157 {
        -271358274844
    } else if n == 158 {
        -578847790604
    } else if n == 159 {
        391490092119
    } else if n == 160 {
        -346514902970
    } else if n == 161 {
        202558424623
    } else if n == 162 {
        -19263115341
    } else if n == 163 {
        -28617803798
    } else if n == 164 {
        545310155318
    } else if n == 165 {
        -203359958365
    } else if n == 166 {
        -117066294602
    } else if n == 167 {
        459183571714
    } else if n == 168 {
        -121365119169
    } else if n == 169 {
        -241559187529
    } else if n == 170 {
        -1567652070
    } else if n == 171 {
        488635164344
    } else if n == 172 {
        130691091395
    } else if n == 173 {
        -113644613922
    } else if n == 174 {
        -341880876516
    } else if n == 175 {
        -215573006976
    } else if n == 176 {
        292394735787
    } else {
        243917221577
    }
}

/// The error of the reciprocal at `n` lies between the bounds `low` and
/// `high`.
pub open spec fn inv_fac_error_between(n: nat, low: int, high: int) -> bool {
    let unit = factorial(n) * inv_fac_spec(n as int).ulp();
    low * unit <= inv_fac_error(n) * parts() && inv_fac_error(n) * parts() <= high * unit
}

/// One step of the recurrence `1/(n-1)! = n / n!`: bounds of the error at
/// `n - 1` give bounds of the error at `n`. With the significands
/// `sig_prev` and `sig` of the two entries and `shift`, the ratio of their
/// units in the last place, the error grows by `n * sig - sig_prev * shift`
/// units of the entry, before it is divided by `n`.
proof fn lemma_inv_fac_error_step(
    n: nat,
    sig_prev: nat,
    sig: nat,
    shift: nat,
    low_prev: int,
    high_prev: int,
    low: int,
    high: int,
)
    requires
        1 <= n <= 177,
        sig_prev == inv_fac_spec(n - 1).significand(),
        sig == inv_fac_spec(n as int).significand(),
        inv_fac_spec(n as int).scale() <= inv_fac_spec(n - 1).scale(),
        shift == pow2((inv_fac_spec(n - 1).scale() - inv_fac_spec(n as int).scale()) as nat),
        inv_fac_error_between((n - 1) as nat, low_prev, high_prev),
        low * n <= (n * sig - sig_prev * shift) * parts() + low_prev * shift,
        (n * sig - sig_prev * shift) * parts() + high_prev * shift <= high * n,
    ensures
        inv_fac_error_between(n, low, high),
{
    let y = inv_fac_spec(n - 1);
    let x = inv_fac_spec(n as int);
    let unit_prev = y.ulp() as int;
    let unit = x.ulp() as int;
    let one = pow2(1074) as int;
    let before = factorial((n - 1) as nat) as int;
    let weight = unit * before;
    let error_prev = inv_fac_error((n - 1) as nat);
    let error = inv_fac_error(n);
    let raised = (n * sig) as int;
    let carried = (sig_prev * shift) as int;
    let growth = raised - carried;
    let k = parts();
    lemma2_to64();
    lemma_pow2_adds((y.scale() - x.scale()) as nat, x.scale());
    lemma_pow2_pos(x.scale());
    lemma_factorial_positive((n - 1) as nat);
    x.lemma_magnitude_in_ulps();
    y.lemma_magnitude_in_ulps();
    assert(unit_prev == shift * unit);
    assert(x.scaled() == sig * unit);
    assert(y.scaled() == sig_prev * unit_prev);
    assert(factorial(n) == n * before);
    assert(weight >= 0) by (nonlinear_arith)
        requires
            weight == unit * before,
            unit > 0,
            before > 0,
    ;
    // the two errors in terms of the weight
    assert((sig * unit) * (n * before) == raised * weight) by (nonlinear_arith)
        requires
            raised == n * sig,
            weight == unit * before,
    ;
    assert((sig_prev * (shift * unit)) * before == carried * weight) by (nonlinear_arith)
        requires
            carried == sig_prev * shift,
            weight == unit * before,
    ;
    assert(error == raised * weight - one);
    assert(error_prev == carried * weight - one);
    assert(growth * weight == raised * weight - carried * weight) by (nonlinear_arith)
        requires
            growth == raised - carried,
    ;
    assert(error == growth * weight + error_prev);
    // the units of the two bounds in terms of the weight
    assert(before * unit_prev == shift * weight) by (nonlinear_arith)
        requires
            unit_prev == shift * unit,
            weight == unit * before,
    ;
    assert((n * before) * unit == n * weight) by (nonlinear_arith)
        requires
            weight == unit * before,
    ;
    assert(high_prev * (shift * weight) == (high_prev * shift) * weight && low_prev * (shift
        * weight) == (low_prev * shift) * weight) by (nonlinear_arith);
    assert(high * (n * weight) == (high * n) * weight && low * (n * weight) == (low * n) * weight)
        by (nonlinear_arith);
    assert((growth * weight) * k == (growth * k) * weight) by (nonlinear_arith);
    assert(error * k == (growth * weight) * k + error_prev * k) by (nonlinear_arith)
        requires
            error == growth * weight + error_prev,
    ;
    let top = growth * k + high_prev * shift;
    let bottom = growth * k + low_prev * shift;
    assert(top * weight == (growth * k) * weight + (high_prev * shift) * weight)
        by (nonlinear_arith)
        requires
            top == growth * k + high_prev * shift,
    ;
    assert(bottom * weight == (growth * k) * weight + (low_prev * shift) * weight)
        by (nonlinear_arith)
        requires
            bottom == growth * k + low_prev * shift,
    ;
    assert(bottom * weight <= error * k <= top * weight);
    assert(top * weight <= (high * n) * weight && (low * n) * weight <= bottom * weight)
        by (nonlinear_arith)
        requires
            top <= high * n,
            low * n <= bottom,
            weight >= 0,
    ;
}

/// The step of `lemma_inv_fac_error_bounds` for the entries 1 to 10.
proof fn lemma_inv_fac_error_bounds_1_to_10(n: nat)
    requires
        1 <= n <= 10,
        inv_fac_error_between(
            (n - 1) as nat,
            inv_fac_error_low((n - 1) as nat),
            inv_fac_error_high((n - 1) as nat),
        ),
    ensures
        inv_fac_error_between(n, inv_fac_error_low(n), inv_fac_error_high(n)),
{
    lemma2_to64();
    if n == 1 {
        lemma_inv_fac_error_step(1, 0x10000000000000, 0x10000000000000, 1, 0, 0, 0, 0);
    } else if n == 2 {
        lemma_inv_fac_error_step(2, 0x10000000000000, 0x10000000000000, 2, 0, 0, 0, 0);
    } else if n == 3 {
        lemma_inv_fac_error_step(3, 0x10000000000000, 0x15555555555555, 4, 0, 0, -366503875926, -366503875925);
    } else if n == 4 {
        lemma_inv_fac_error_step(4, 0x15555555555555, 0x15555555555555, 4, -366503875926, -366503875925, -366503875926, -366503875925);
    } else if n == 5 {
        lemma_inv_fac_error_step(5, 0x15555555555555, 0x11111111111111, 4, -366503875926, -366503875925, -73300775186, -73300775184);
    } else if n == 6 {
        lemma_inv_fac_error_step(6, 0x11111111111111, 0x16c16c16c16c17, 8, -73300775186, -73300775184, 268769509010, 268769509014);
    } else if n == 7 {
        lemma_inv_fac_error_step(7, 0x16c16c16c16c17, 0x1a01a01a01a01a, 8, 268769509010, 268769509014, -6981026211, -6981026205);
    } else if n == 8 {
        lemma_inv_fac_error_step(8, 0x1a01a01a01a01a, 0x1a01a01a01a01a, 8, -6981026211, -6981026205, -6981026211, -6981026205);
    } else if n == 9 {
        lemma_inv_fac_error_step(9, 0x1a01a01a01a01a, 0x171de3a556c734, 8, -6981026211, -6981026205, 482466477935, 482466477941);
    } else {
        lemma_inv_fac_error_step(10, 0x171de3a556c734, 0x127e4fb7789f5d, 8, 482466477935, 482466477941, 605875507903, 605875507908);
    }
}

/// The step of `lemma_inv_fac_error_bounds` for the entries 11 to 20.
proof fn lemma_inv_fac_error_bounds_11_to_20(n: nat)
    requires
        11 <= n <= 20,
        inv_fac_error_between(
            (n - 1) as nat,
            inv_fac_error_low((n - 1) as nat),
            inv_fac_error_high((n - 1) as nat),
        ),
    ensures
        inv_fac_error_between(n, inv_fac_error_low(n), inv_fac_error_high(n)),
{
    lemma2_to64();
    if n == 11 {
        lemma_inv_fac_error_step(11, 0x127e4fb7789f5d, 0x1ae64567f544e4, 16, 605875507903, 605875507908, 481451055940, 481451055948);
    } else if n == 12 {
        lemma_inv_fac_error_step(12, 0x1ae64567f544e4, 0x11eed8eff8d898, 8, 481451055940, 481451055948, 320967370626, 320967370632);
    } else if n == 13 {
        lemma_inv_fac_error_step(13, 0x11eed8eff8d898, 0x16124613a86d0a, 16, 320967370626, 320967370632, 564192398889, 564192398898);
    } else if n == 14 {
        lemma_inv_fac_error_step(14, 0x16124613a86d0a, 0x193974a8c07c9d, 16, 564192398889, 564192398898, -140574135396, -140574135385);
    } else if n == 15 {
        lemma_inv_fac_error_step(15, 0x193974a8c07c9d, 0x1ae7f3e733b81f, 16, -140574135396, -140574135385, -76644969238, -76644969225);
    } else if n == 16 {
        lemma_inv_fac_error_step(16, 0x1ae7f3e733b81f, 0x1ae7f3e733b81f, 16, -76644969238, -76644969225, -76644969238, -76644969225);
    } else if n == 17 {
        lemma_inv_fac_error_step(17, 0x1ae7f3e733b81f, 0x1952c77030ad4b, 16, -76644969238, -76644969225, 639312258689, 639312258703);
    } else if n == 18 {
        lemma_inv_fac_error_step(18, 0x1952c77030ad4b, 0x16827863b97d97, 16, 639312258689, 639312258703, -531234064497, -531234064484);
    } else if n == 19 {
        lemma_inv_fac_error_step(19, 0x16827863b97d97, 0x12f49b46814157, 16, -531234064497, -531234064484, -158009836478, -158009836466);
    } else {
        lemma_inv_fac_error_step(20, 0x12f49b46814157, 0x1e542ba4020225, 32, -158009836478, -158009836466, -32913412810, -32913412790);
    }
}

/// The step of `lemma_inv_fac_error_bounds` for the entries 21 to 30.
proof fn lemma_inv_fac_error_bounds_21_to_30(n: nat)
    requires
        21 <= n <= 30,
        inv_fac_error_between(
            (n - 1) as nat,
            inv_fac_error_low((n - 1) as nat),
            inv_fac_error_high((n - 1) as nat),
        ),
    ensures
        inv_fac_error_between(n, inv_fac_error_low(n), inv_fac_error_high(n)),
{
    lemma2_to64();
    if n == 21 {
        lemma_inv_fac_error_step(21, 0x1e542ba4020225, 0x171b8ef6dcf571, 16, -32913412810, -32913412790, -601011548119, -601011548103);
    } else if n == 22 {
        lemma_inv_fac_error_step(22, 0x171b8ef6dcf571, 0x10ce396db7f853, 16, -601011548119, -601011548103, 462501115002, 462501115015);
    } else if n == 23 {
        lemma_inv_fac_error_step(23, 0x10ce396db7f853, 0x1761b41316381a, 32, 462501115002, 462501115015, 165431278361, 165431278380);
    } else if n == 24 {
        lemma_inv_fac_error_step(24, 0x1761b41316381a, 0x1f2cf01972f578, 32, 165431278361, 165431278380, 220575037814, 220575037840);
    } else if n == 25 {
        lemma_inv_fac_error_step(25, 0x1f2cf01972f578, 0x13f3ccdd165fa9, 16, 220575037814, 220575037840, 185148489312, 185148489329);
    } else if n == 26 {
        lemma_inv_fac_error_step(26, 0x13f3ccdd165fa9, 0x188e85fc6a4e5a, 32, 185148489312, 185148489329, 397030698811, 397030698832);
    } else if n == 27 {
        lemma_inv_fac_error_step(27, 0x188e85fc6a4e5a, 0x1d1ab1c2dccea3, 32, 397030698811, 397030698832, -140284890915, -140284890889);
    } else if n == 28 {
        lemma_inv_fac_error_step(28, 0x1d1ab1c2dccea3, 0x10a18a2635085d, 16, -140284890915, -140284890889, -237235884491, -237235884476);
    } else if n == 29 {
        lemma_inv_fac_error_step(29, 0x10a18a2635085d, 0x1259f98b4358ae, 32, -237235884491, -237235884476, 572334741633, 572334741650);
    } else {
        lemma_inv_fac_error_step(30, 0x1259f98b4358ae, 0x13932c5047d60e, 32, 572334741633, 572334741650, -415720461516, -415720461497);
    }
}

/// The step of `lemma_inv_fac_error_bounds` for the entries 31 to 40.
proof fn lemma_inv_fac_error_bounds_31_to_40(n: nat)
    requires
        31 <= n <= 40,
        inv_fac_error_between(
            (n - 1) as nat,
            inv_fac_error_low((n - 1) as nat),
            inv_fac_error_high((n - 1) as nat),
        ),
    ensures
        inv_fac_error_between(n, inv_fac_error_low(n), inv_fac_error_high(n)),
{
    lemma2_to64();
    if n == 31 {
        lemma_inv_fac_error_step(31, 0x13932c5047d60e, 0x1434d2e783f5bc, 32, -415720461516, -415720461497, -287258330885, -287258330864);
    } else if n == 32 {
        lemma_inv_fac_error_step(32, 0x1434d2e783f5bc, 0x1434d2e783f5bc, 32, -287258330885, -287258330864, -287258330885, -287258330864);
    } else if n == 33 {
        lemma_inv_fac_error_step(33, 0x1434d2e783f5bc, 0x13981254dd0d52, 32, -287258330885, -287258330864, 321180082171, 321180082192);
    } else if n == 34 {
        lemma_inv_fac_error_step(34, 0x13981254dd0d52, 0x12710231c0fd7a, 32, 321180082171, 321180082192, -85775791290, -85775791269);
    } else if n == 35 {
        lemma_inv_fac_error_step(35, 0x12710231c0fd7a, 0x10dc59c716d91f, 32, -85775791290, -85775791269, -172667434418, -172667434398);
    } else if n == 36 {
        lemma_inv_fac_error_step(36, 0x10dc59c716d91f, 0x1df983290c2ca9, 64, -172667434418, -172667434398, -184796369213, -184796369176);
    } else if n == 37 {
        lemma_inv_fac_error_step(37, 0x1df983290c2ca9, 0x19ec8d1c94e85b, 32, -184796369213, -184796369176, 48191826476, 48191826509);
    } else if n == 38 {
        lemma_inv_fac_error_step(38, 0x19ec8d1c94e85b, 0x15d4acb9c0c3ab, 32, 48191826476, 48191826509, 98451623757, 98451623786);
    } else if n == 39 {
        lemma_inv_fac_error_step(39, 0x15d4acb9c0c3ab, 0x11e99449a4bace, 32, 98451623757, 98451623786, 137166031173, 137166031198);
    } else {
        lemma_inv_fac_error_step(40, 0x11e99449a4bace, 0x1ca8ed42a12ae3, 64, 137166031173, 137166031198, -436675679, -436675638);
    }
}

/// The step of `lemma_inv_fac_error_bounds` for the entries 41 to 50.
proof fn lemma_inv_fac_error_bounds_41_to_50(n: nat)
    requires
        41 <= n <= 50,
        inv_fac_error_between(
            (n - 1) as nat,
            inv_fac_error_low((n - 1) as nat),
            inv_fac_error_high((n - 1) as nat),
        ),
    ensures
        inv_fac_error_between(n, inv_fac_error_low(n), inv_fac_error_high(n)),
{
    lemma2_to64();
    if n == 41 {
        lemma_inv_fac_error_step(41, 0x1ca8ed42a12ae3, 0x165e61c39d0241, 32, -436675679, -436675638, 241015390933, 241015390966);
    } else if n == 42 {
        lemma_inv_fac_error_step(42, 0x165e61c39d0241, 0x110af527530de8, 32, 241015390933, 241015390966, -235230798442, -235230798416);
    } else if n == 43 {
        lemma_inv_fac_error_step(43, 0x110af527530de8, 0x195db45257e512, 64, -235230798442, -235230798416, -196690728690, -196690728650);
    } else if n == 44 {
        lemma_inv_fac_error_step(44, 0x195db45257e512, 0x1272b1b03fec6a, 32, -196690728690, -196690728650, -342959007734, -342959007704);
    } else if n == 45 {
        lemma_inv_fac_error_step(45, 0x1272b1b03fec6a, 0x1a3cb872220648, 64, -342959007734, -342959007704, 489579747023, 489579747067);
    } else if n == 46 {
        lemma_inv_fac_error_step(46, 0x1a3cb872220648, 0x1240804f659510, 32, 489579747023, 489579747067, -424300438785, -424300438754);
    } else if n == 47 {
        lemma_inv_fac_error_step(47, 0x1240804f659510, 0x18da8e0a127eba, 64, -424300438785, -424300438754, 311196037728, 311196037771);
    } else if n == 48 {
        lemma_inv_fac_error_step(48, 0x18da8e0a127eba, 0x1091b406b6ff26, 32, 311196037728, 311196037771, -525543726699, -525543726670);
    } else if n == 49 {
        lemma_inv_fac_error_step(49, 0x1091b406b6ff26, 0x15a42f0dfeb086, 64, -525543726699, -525543726670, 166258027484, 166258027523);
    } else {
        lemma_inv_fac_error_step(50, 0x15a42f0dfeb086, 0x1bb36f6e12cd78, 64, 166258027484, 166258027523, -139033445709, -139033445658);
    }
}

/// The step of `lemma_inv_fac_error_bounds` for the entries 51 to 60.
proof fn lemma_inv_fac_error_bounds_51_to_60(n: nat)
    requires
        51 <= n <= 60,
        inv_fac_error_between(
            (n - 1) as nat,
            inv_fac_error_low((n - 1) as nat),
            inv_fac_error_high((n - 1) as nat),
        ),
    ensures
        inv_fac_error_between(n, inv_fac_error_low(n), inv_fac_error_high(n)),
{
    lemma2_to64();
    if n == 51 {
        lemma_inv_fac_error_step(51, 0x1bb36f6e12cd78, 0x1161872bf7b823, 32, -139033445709, -139033445658, -238150032493, -238150032460);
    } else if n == 52 {
        lemma_inv_fac_error_step(52, 0x1161872bf7b823, 0x156457989358c9, 64, -238150032493, -238150032460, 129781355307, 129781355348);
    } else if n == 53 {
        lemma_inv_fac_error_step(53, 0x156457989358c9, 0x19d4f1058674df, 64, 129781355307, 129781355348, -278938442333, -278938442283);
    } else if n == 54 {
        lemma_inv_fac_error_step(54, 0x19d4f1058674df, 0x1e9d8f6ed83eaa, 64, -278938442333, -278938442283, 239523430896, 239523430956);
    } else if n == 55 {
        lemma_inv_fac_error_step(55, 0x1e9d8f6ed83eaa, 0x11d008faac5c50, 32, 239523430896, 239523430956, -180498841014, -180498840978);
    } else if n == 56 {
        lemma_inv_fac_error_step(56, 0x11d008faac5c50, 0x145b77f9e98e12, 64, -180498841014, -180498840978, -520430569095, -520430569053);
    } else if n == 57 {
        lemma_inv_fac_error_step(57, 0x145b77f9e98e12, 0x16db793c887b97, 64, -520430569095, -520430569053, 13636912964, 13636913012);
    } else if n == 58 {
        lemma_inv_fac_error_step(58, 0x16db793c887b97, 0x1938cc661b03f6, 64, 13636912964, 13636913012, -60780760025, -60780759971);
    } else if n == 59 {
        lemma_inv_fac_error_step(59, 0x1938cc661b03f6, 0x1b5bfc17fa97d2, 64, -60780760025, -60780759971, -550462219726, -550462219666);
    } else {
        lemma_inv_fac_error_step(60, 0x1b5bfc17fa97d2, 0x1d2eeac43e7fd0, 64, -550462219726, -550462219666, 585652701920, 585652701984);
    }
}

/// The step of `lemma_inv_fac_error_bounds` for the entries 61 to 70.
proof fn lemma_inv_fac_error_bounds_61_to_70(n: nat)
    requires
        61 <= n <= 70,
        inv_fac_error_between(
            (n - 1) as nat,
            inv_fac_error_low((n - 1) as nat),
            inv_fac_error_high((n - 1) as nat),
        ),
    ensures
        inv_fac_error_between(n, inv_fac_error_low(n), inv_fac_error_high(n)),
{
    lemma2_to64();
    if n == 61 {
        lemma_inv_fac_error_step(61, 0x1d2eeac43e7fd0, 0x1e9e56d649f768, 64, 585652701920, 585652701984, -394932430043, -394932429975);
    } else if n == 62 {
        lemma_inv_fac_error_step(62, 0x1e9e56d649f768, 0x1f9b3059128bc7, 64, -394932430043, -394932429975, 479030739774, 479030739846);
    } else if n == 63 {
        lemma_inv_fac_error_step(63, 0x1f9b3059128bc7, 0x100dcf6a320e1c, 32, 479030739774, 479030739846, 313127463236, 313127463273);
    } else if n == 64 {
        lemma_inv_fac_error_step(64, 0x100dcf6a320e1c, 0x100dcf6a320e1c, 64, 313127463236, 313127463273, 313127463236, 313127463273);
    } else if n == 65 {
        lemma_inv_fac_error_step(65, 0x100dcf6a320e1c, 0x1f9d2a2bb5471b, 128, 313127463236, 313127463273, -9255614362, -9255614288);
    } else if n == 66 {
        lemma_inv_fac_error_step(66, 0x1f9d2a2bb5471b, 0x1ea7ead50ce01a, 64, -9255614362, -9255614288, -208886346250, -208886346177);
    } else if n == 67 {
        lemma_inv_fac_error_step(67, 0x1ea7ead50ce01a, 0x1d48849da8f4a3, 64, -208886346250, -208886346177, 473302247445, 473302247515);
    } else if n == 68 {
        lemma_inv_fac_error_step(68, 0x1d48849da8f4a3, 0x1b8f8bdfae136c, 64, 473302247445, 473302247515, 186752320471, 186752320538);
    } else if n == 69 {
        lemma_inv_fac_error_step(69, 0x1b8f8bdfae136c, 0x199046602abcae, 64, 186752320471, 186752320538, -241089185682, -241089185619);
    } else {
        lemma_inv_fac_error_step(70, 0x199046602abcae, 0x175f56494ba532, 64, -241089185682, -241089185619, 470697196264, 470697196322);
    }
}

/// The step of `lemma_inv_fac_error_bounds` for the entries 71 to 80.
proof fn lemma_inv_fac_error_bounds_71_to_80(n: nat)
    requires
        71 <= n <= 80,
        inv_fac_error_between(
            (n - 1) as nat,
            inv_fac_error_low((n - 1) as nat),
            inv_fac_error_high((n - 1) as nat),
        ),
    ensures
        inv_fac_error_between(n, inv_fac_error_low(n), inv_fac_error_high(n)),
{
    lemma2_to64();
    if n == 71 {
        lemma_inv_fac_error_step(71, 0x175f56494ba532, 0x15116e3adb9fb9, 64, 470697196264, 470697196322, -334527453523, -334527453470);
    } else if n == 72 {
        lemma_inv_fac_error_step(72, 0x15116e3adb9fb9, 0x12ba2917dfaa6c, 64, -334527453523, -334527453470, 191314098102, 191314098150);
    } else if n == 73 {
        lemma_inv_fac_error_step(73, 0x12ba2917dfaa6c, 0x106b1981a48762, 64, 191314098102, 191314098150, -43137815211, -43137815168);
    } else if n == 74 {
        lemma_inv_fac_error_step(74, 0x106b1981a48762, 0x1c6639f500ea2d, 128, -43137815211, -43137815168, -44900230966, -44900230891);
    } else if n == 75 {
        lemma_inv_fac_error_step(75, 0x1c6639f500ea2d, 0x183bed30a49edf, 64, -44900230966, -44900230891, 269548392019, 269548392084);
    } else if n == 76 {
        lemma_inv_fac_error_step(76, 0x183bed30a49edf, 0x14685bf3115d5d, 64, 269548392019, 269548392084, -293833177773, -293833177717);
    } else if n == 77 {
        lemma_inv_fac_error_step(77, 0x14685bf3115d5d, 0x10f653132c5ae6, 64, -293833177773, -293833177717, -501253671136, -501253671089);
    } else if n == 78 {
        lemma_inv_fac_error_step(78, 0x10f653132c5ae6, 0x1bd5dda94f5a18, 128, -501253671136, -501253671089, 305134106624, 305134106702);
    } else if n == 79 {
        lemma_inv_fac_error_step(79, 0x1bd5dda94f5a18, 0x168cda75b82f10, 64, 305134106624, 305134106702, 24511351639, 24511351703);
    } else {
        lemma_inv_fac_error_step(80, 0x168cda75b82f10, 0x120a485e2cf273, 64, 24511351639, 24511351703, -200293244244, -200293244192);
    }
}

/// The step of `lemma_inv_fac_error_bounds` for the entries 81 to 90.
proof fn lemma_inv_fac_error_bounds_81_to_90(n: nat)
    requires
        81 <= n <= 90,
        inv_fac_error_between(
            (n - 1) as nat,
            inv_fac_error_low((n - 1) as nat),
            inv_fac_error_high((n - 1) as nat),
        ),
    ensures
        inv_fac_error_between(n, inv_fac_error_low(n), inv_fac_error_high(n)),
{
    lemma2_to64();
    if n == 81 {
        lemma_inv_fac_error_step(81, 0x120a485e2cf273, 0x1c8206e6fe560c, 128, -200293244244, -200293244192, 715127758614, 715127758697);
    } else if n == 82 {
        lemma_inv_fac_error_step(82, 0x1c8206e6fe560c, 0x164005631debbe, 64, 715127758614, 715127758697, 75436072577, 75436072643);
    } else if n == 83 {
        lemma_inv_fac_error_step(83, 0x164005631debbe, 0x11281cd42368ab, 64, 75436072577, 75436072643, -140539346648, -140539346596);
    } else if n == 84 {
        lemma_inv_fac_error_step(84, 0x11281cd42368ab, 0x1a24be3711628b, 128, -140539346648, -140539346596, 152348681033, 152348681113);
    } else if n == 85 {
        lemma_inv_fac_error_step(85, 0x1a24be3711628b, 0x13af3de7343e26, 64, 152348681033, 152348681113, -325095055980, -325095055919);
    } else if n == 86 {
        lemma_inv_fac_error_step(86, 0x13af3de7343e26, 0x1d4c44522a0927, 128, -325095055980, -325095055919, -151451916783, -151451916691);
    } else if n == 87 {
        lemma_inv_fac_error_step(87, 0x1d4c44522a0927, 0x158d700d5cb749, 64, -151451916783, -151451916691, 78158066006, 78158066074);
    } else if n == 88 {
        lemma_inv_fac_error_step(88, 0x158d700d5cb749, 0x1f595d2ab567b0, 128, 78158066006, 78158066074, 113684459645, 113684459744);
    } else if n == 89 {
        lemma_inv_fac_error_step(89, 0x1f595d2ab567b0, 0x168b0c583d6a34, 64, 113684459645, 113684459744, 328831887334, 328831887407);
    } else {
        lemma_inv_fac_error_step(90, 0x168b0c583d6a34, 0x1007db446ff080, 64, 328831887334, 328831887407, 233836008770, 233836008823);
    }
}

/// The step of `lemma_inv_fac_error_bounds` for the entries 91 to 100.
proof fn lemma_inv_fac_error_bounds_91_to_100(n: nat)
    requires
        91 <= n <= 100,
        inv_fac_error_between(
            (n - 1) as nat,
            inv_fac_error_low((n - 1) as nat),
            inv_fac_error_high((n - 1) as nat),
        ),
    ensures
        inv_fac_error_between(n, inv_fac_error_low(n), inv_fac_error_high(n)),
{
    lemma2_to64();
    if n == 91 {
        lemma_inv_fac_error_step(91, 0x1007db446ff080, 0x168c751f8f632a, 128, 233836008770, 233836008823, 111426371676, 111426371752);
    } else if n == 92 {
        lemma_inv_fac_error_step(92, 0x168c751f8f632a, 0x1f5f3ec7bc5d72, 128, 111426371676, 111426371752, 59418288612, 59418288718);
    } else if n == 93 {
        lemma_inv_fac_error_step(93, 0x1f5f3ec7bc5d72, 0x1596e0e189e2b7, 64, 59418288612, 59418288718, -18223523309, -18223523235);
    } else if n == 94 {
        lemma_inv_fac_error_step(94, 0x1596e0e189e2b7, 0x1d65f64e59b771, 128, -18223523309, -18223523235, -48208874885, -48208874783);
    } else if n == 95 {
        lemma_inv_fac_error_step(95, 0x1d65f64e59b771, 0x13ce1f3216b6de, 64, -48208874885, -48208874783, 361031866860, 361031866930);
    } else if n == 96 {
        lemma_inv_fac_error_step(96, 0x13ce1f3216b6de, 0x1a6829981e4928, 128, 361031866860, 361031866930, 481375822480, 481375822574);
    } else if n == 97 {
        lemma_inv_fac_error_step(97, 0x1a6829981e4928, 0x116c503a23d142, 64, 481375822480, 481375822574, 340279132930, 340279132993);
    } else if n == 98 {
        lemma_inv_fac_error_step(98, 0x116c503a23d142, 0x16c1b7275dcd66, 128, 340279132930, 340279132993, 579080291309, 579080291392);
    } else if n == 99 {
        lemma_inv_fac_error_step(99, 0x16c1b7275dcd66, 0x1d6c3cf76c59b9, 128, 579080291309, 579080291392, -550712961235, -550712961127);
    } else {
        lemma_inv_fac_error_step(100, 0x1d6c3cf76c59b9, 0x12d4a1e607e781, 64, -550712961235, -550712961127, 43367890808, 43367890879);
    }
}

/// The step of `lemma_inv_fac_error_bounds` for the entries 101 to 110.
proof fn lemma_inv_fac_error_bounds_101_to_110(n: nat)
    requires
        101 <= n <= 110,
        inv_fac_error_between(
            (n - 1) as nat,
            inv_fac_error_low((n - 1) as nat),
            inv_fac_error_high((n - 1) as nat),
        ),
    ensures
        inv_fac_error_between(n, inv_fac_error_low(n), inv_fac_error_high(n)),
{
    lemma2_to64();
    if n == 101 {
        lemma_inv_fac_error_step(101, 0x12d4a1e607e781, 0x17dd50faf84657, 128, 43367890808, 43367890879, -434920130956, -434920130865);
    } else if n == 102 {
        lemma_inv_fac_error_step(102, 0x17dd50faf84657, 0x1df297d187dfcd, 128, -434920130956, -434920130865, -49923940046, -49923939931);
    } else if n == 103 {
        lemma_inv_fac_error_step(103, 0x1df297d187dfcd, 0x129bb552f8772d, 64, -49923940046, -49923939931, -425990896997, -425990896925);
    } else if n == 104 {
        lemma_inv_fac_error_step(104, 0x129bb552f8772d, 0x16e7068d8092ae, 128, -425990896997, -425990896925, -16829583485, -16829583395);
    } else if n == 105 {
        lemma_inv_fac_error_step(105, 0x16e7068d8092ae, 0x1beb4eb15fc8c1, 128, -16829583485, -16829583395, 408817048121, 408817048232);
    } else if n == 106 {
        lemma_inv_fac_error_step(106, 0x1beb4eb15fc8c1, 0x10db5afbffdea5, 64, 408817048121, 408817048232, 433542456412, 433542456480);
    } else if n == 107 {
        lemma_inv_fac_error_step(107, 0x10db5afbffdea5, 0x142a4b5885d350, 128, 433542456412, 433542456480, 354217274545, 354217274627);
    } else if n == 108 {
        lemma_inv_fac_error_step(108, 0x142a4b5885d350, 0x17e64655f3f0f6, 128, 354217274545, 354217274627, -150304074201, -150304074103);
    } else if n == 109 {
        lemma_inv_fac_error_step(109, 0x17e64655f3f0f6, 0x1c10c3547ec1b7, 128, -150304074201, -150304074103, -388336382395, -388336382279);
    } else {
        lemma_inv_fac_error_step(110, 0x1c10c3547ec1b7, 0x105439cac2c47d, 64, -388336382395, -388336382279, -325896770464, -325896770396);
    }
}

/// The step of `lemma_inv_fac_error_bounds` for the entries 111 to 120.
proof fn lemma_inv_fac_error_bounds_111_to_120(n: nat)
    requires
        111 <= n <= 120,
        inv_fac_error_between(
            (n - 1) as nat,
            inv_fac_error_low((n - 1) as nat),
            inv_fac_error_high((n - 1) as nat),
        ),
    ensures
        inv_fac_error_between(n, inv_fac_error_low(n), inv_fac_error_high(n)),
{
    lemma2_to64();
    if n == 111 {
        lemma_inv_fac_error_step(111, 0x105439cac2c47d, 0x12d470c4e9d270, 128, -325896770464, -325896770396, -217320725901, -217320725822);
    } else if n == 112 {
        lemma_inv_fac_error_step(112, 0x12d470c4e9d270, 0x1585132a2fcbee, 128, -217320725901, -217320725822, 65779635477, 65779635568);
    } else if n == 113 {
        lemma_inv_fac_error_step(113, 0x1585132a2fcbee, 0x18605e345153be, 128, 65779635477, 65779635568, -256315061977, -256315061873);
    } else if n == 114 {
        lemma_inv_fac_error_step(114, 0x18605e345153be, 0x1b5eba9d8cb7da, 128, -256315061977, -256315061873, -94895573488, -94895573370);
    } else if n == 115 {
        lemma_inv_fac_error_step(115, 0x1b5eba9d8cb7da, 0x1e76cb424808bd, 128, -94895573488, -94895573370, -344647166095, -344647165963);
    } else if n == 116 {
        lemma_inv_fac_error_step(116, 0x1e76cb424808bd, 0x10cec86b309210, 64, -344647166095, -344647165963, -190150160605, -190150160531);
    } else if n == 117 {
        lemma_inv_fac_error_step(117, 0x10cec86b309210, 0x1263516a53c4fe, 128, -190150160605, -190150160531, -1281749969, -1281749888);
    } else if n == 118 {
        lemma_inv_fac_error_step(118, 0x1263516a53c4fe, 0x13f23e47f2bba7, 128, -1281749969, -1281749888, -57297743752, -57297743663);
    } else if n == 119 {
        lemma_inv_fac_error_step(119, 0x13f23e47f2bba7, 0x15746e043f2ccd, 128, -57297743752, -57297743663, -551329642626, -551329642529);
    } else {
        lemma_inv_fac_error_step(120, 0x15746e043f2ccd, 0x16e2977bff1eb9, 128, -551329642626, -551329642529, -74979525839, -74979525735);
    }
}

/// The step of `lemma_inv_fac_error_bounds` for the entries 121 to 130.
proof fn lemma_inv_fac_error_bounds_121_to_130(n: nat)
    requires
        121 <= n <= 130,
        inv_fac_error_between(
            (n - 1) as nat,
            inv_fac_error_low((n - 1) as nat),
            inv_fac_error_high((n - 1) as nat),
        ),
    ensures
        inv_fac_error_between(n, inv_fac_error_low(n), inv_fac_error_high(n)),
{
    lemma2_to64();
    if n == 121 {
        lemma_inv_fac_error_step(121, 0x16e2977bff1eb9, 0x183584be68daaf, 128, -74979525839, -74979525735, 420460828266, 420460828377);
    } else if n == 122 {
        lemma_inv_fac_error_step(122, 0x183584be68daaf, 0x19665084a05f25, 128, 420460828266, 420460828377, 747560502970, 747560503088);
    } else if n == 123 {
        lemma_inv_fac_error_step(123, 0x19665084a05f25, 0x1a6ea2e16eb219, 128, 747560502970, 747560503088, -339440724324, -339440724201);
    } else if n == 124 {
        lemma_inv_fac_error_step(124, 0x1a6ea2e16eb219, 0x1b48ea3306e964, 128, -339440724324, -339440724201, -492262893209, -492262893081);
    } else if n == 125 {
        lemma_inv_fac_error_step(125, 0x1b48ea3306e964, 0x1bf08d841fa750, 128, -492262893209, -492262893081, -363339714291, -363339714159);
    } else if n == 126 {
        lemma_inv_fac_error_step(126, 0x1bf08d841fa750, 0x1c6215db8ddecb, 128, -363339714291, -363339714159, -561085232067, -561085231931);
    } else if n == 127 {
        lemma_inv_fac_error_step(127, 0x1c6215db8ddecb, 0x1c9b4c7476cc64, 128, -561085232067, -561085231931, -323091213598, -323091213460);
    } else if n == 128 {
        lemma_inv_fac_error_step(128, 0x1c9b4c7476cc64, 0x1c9b4c7476cc64, 128, -323091213598, -323091213460, -323091213598, -323091213460);
    } else if n == 129 {
        lemma_inv_fac_error_step(129, 0x1c9b4c7476cc64, 0x1c628765ab7579, 128, -323091213598, -323091213460, -380250052210, -380250052072);
    } else {
        lemma_inv_fac_error_step(130, 0x1c628765ab7579, 0x1bf2bc73dc0564, 128, -380250052210, -380250052072, 234560234746, 234560234882);
    }
}

/// The step of `lemma_inv_fac_error_bounds` for the entries 131 to 140.
proof fn lemma_inv_fac_error_bounds_131_to_140(n: nat)
    requires
        131 <= n <= 140,
        inv_fac_error_between(
            (n - 1) as nat,
            inv_fac_error_low((n - 1) as nat),
            inv_fac_error_high((n - 1) as nat),
        ),
    ensures
        inv_fac_error_between(n, inv_fac_error_low(n), inv_fac_error_high(n)),
{
    lemma2_to64();
    if n == 131 {
        lemma_inv_fac_error_step(131, 0x1bf2bc73dc0564, 0x1b4ee32115844a, 128, 234560234746, 234560234882, -56180803794, -56180803660);
    } else if n == 132 {
        lemma_inv_fac_error_step(132, 0x1b4ee32115844a, 0x1a7b0acabf880a, 128, -56180803794, -56180803660, 278706986556, 278706986687);
    } else if n == 133 {
        lemma_inv_fac_error_step(133, 0x1a7b0acabf880a, 0x197c30e1ec4d07, 128, 278706986556, 278706986687, -500602158677, -500602158550);
    } else if n == 134 {
        lemma_inv_fac_error_step(134, 0x197c30e1ec4d07, 0x1858102067739c, 128, -500602158677, -500602158550, -149974710445, -149974710323);
    } else if n == 135 {
        lemma_inv_fac_error_step(135, 0x1858102067739c, 0x1714eb42c0e6fa, 128, -149974710445, -149974710323, -484268528175, -484268528058);
    } else if n == 136 {
        lemma_inv_fac_error_step(136, 0x1714eb42c0e6fa, 0x15b955e47951dd, 128, -484268528175, -484268528058, 385020865311, 385020865422);
    } else if n == 137 {
        lemma_inv_fac_error_step(137, 0x15b955e47951dd, 0x144bfe07eacf49, 128, 385020865311, 385020865422, -531117663674, -531117663570);
    } else if n == 138 {
        lemma_inv_fac_error_step(138, 0x144bfe07eacf49, 0x12d3789bbfd2d1, 128, -531117663674, -531117663570, -157996902781, -157996902683);
    } else if n == 139 {
        lemma_inv_fac_error_step(139, 0x12d3789bbfd2d1, 0x115612fa3e74c8, 128, -157996902781, -157996902683, 44350183529, 44350183621);
    } else {
        lemma_inv_fac_error_step(140, 0x115612fa3e74c8, 0x1fb355e6d89b07, 256, 44350183529, 44350183621, -264463318848, -264463318679);
    }
}

/// The step of `lemma_inv_fac_error_bounds` for the entries 141 to 150.
proof fn lemma_inv_fac_error_bounds_141_to_150(n: nat)
    requires
        141 <= n <= 150,
        inv_fac_error_between(
            (n - 1) as nat,
            inv_fac_error_low((n - 1) as nat),
            inv_fac_error_high((n - 1) as nat),
        ),
    ensures
        inv_fac_error_between(n, inv_fac_error_low(n), inv_fac_error_high(n)),
{
    lemma2_to64();
    if n == 141 {
        lemma_inv_fac_error_step(141, 0x1fb355e6d89b07, 0x1cc71cf5dfde70, 128, -264463318848, -264463318679, 134221654756, 134221654911);
    } else if n == 142 {
        lemma_inv_fac_error_step(142, 0x1cc71cf5dfde70, 0x19f0c72cf5109f, 128, 134221654756, 134221654911, 508140515475, 508140515616);
    } else if n == 143 {
        lemma_inv_fac_error_step(143, 0x19f0c72cf5109f, 0x1738316351833d, 128, 508140515475, 508140515616, -383250219908, -383250219781);
    } else if n == 144 {
        lemma_inv_fac_error_step(144, 0x1738316351833d, 0x14a3ba1f64e66f, 128, -383250219908, -383250219781, -462834820783, -462834820669);
    } else if n == 145 {
        lemma_inv_fac_error_step(145, 0x14a3ba1f64e66f, 0x1238416eb158a9, 128, -462834820783, -462834820669, 23650384296, 23650384398);
    } else if n == 146 {
        lemma_inv_fac_error_step(146, 0x1238416eb158a9, 0x1ff26bb792243a, 256, 23650384296, 23650384398, 192087198186, 192087198366);
    } else if n == 147 {
        lemma_inv_fac_error_step(147, 0x1ff26bb792243a, 0x1bd15891e97bd8, 128, 192087198186, 192087198366, 227096968639, 227096968797);
    } else if n == 148 {
        lemma_inv_fac_error_step(148, 0x1bd15891e97bd8, 0x180f007e31b737, 128, 227096968639, 227096968797, -189906707153, -189906707015);
    } else if n == 149 {
        lemma_inv_fac_error_step(149, 0x180f007e31b737, 0x14aaf465893496, 128, -189906707153, -189906707015, -532104965802, -532104965682);
    } else {
        lemma_inv_fac_error_step(150, 0x14aaf465893496, 0x11a2f2af6403ea, 128, -532104965802, -532104965682, -248820733633, -248820733530);
    }
}

/// The step of `lemma_inv_fac_error_bounds` for the entries 151 to 160.
proof fn lemma_inv_fac_error_bounds_151_to_160(n: nat)
    requires
        151 <= n <= 160,
        inv_fac_error_between(
            (n - 1) as nat,
            inv_fac_error_low((n - 1) as nat),
            inv_fac_error_high((n - 1) as nat),
        ),
    ensures
        inv_fac_error_between(n, inv_fac_error_low(n), inv_fac_error_high(n)),
{
    lemma2_to64();
    if n == 151 {
        lemma_inv_fac_error_step(151, 0x11a2f2af6403ea, 0x1de67b3a4e033f, 256, -248820733633, -248820733530, -123298881267, -123298881091);
    } else if n == 152 {
        lemma_inv_fac_error_step(152, 0x1de67b3a4e033f, 0x192de108ad7bff, 128, -123298881267, -123298881091, -277437735979, -277437735830);
    } else if n == 153 {
        lemma_inv_fac_error_step(153, 0x192de108ad7bff, 0x1510a17e0ea0a0, 128, -277437735979, -277437735830, -2141556317, -2141556192);
    } else if n == 154 {
        lemma_inv_fac_error_step(154, 0x1510a17e0ea0a0, 0x11822fc930bab3, 128, -2141556317, -2141556192, -587234238223, -587234238118);
    } else if n == 155 {
        lemma_inv_fac_error_step(155, 0x11822fc930bab3, 0x1cead65b27310e, 256, -587234238223, -587234238118, -104461589655, -104461589480);
    } else if n == 156 {
        lemma_inv_fac_error_step(156, 0x1cead65b27310e, 0x17ba1f78bdb219, 128, -104461589655, -104461589480, 337177014043, 337177014187);
    } else if n == 157 {
        lemma_inv_fac_error_step(157, 0x17ba1f78bdb219, 0x135826b3f7995a, 128, 337177014043, 337177014187, -271358274962, -271358274844);
    } else if n == 158 {
        lemma_inv_fac_error_step(158, 0x135826b3f7995a, 0x1f57bd16a1602a, 256, -271358274962, -271358274844, -578847790797, -578847790604);
    } else if n == 159 {
        lemma_inv_fac_error_step(159, 0x1f57bd16a1602a, 0x193b5ca6580d04, 128, -578847790797, -578847790604, 391490091963, 391490092119);
    } else {
        lemma_inv_fac_error_step(160, 0x193b5ca6580d04, 0x142f7d51e00a69, 128, 391490091963, 391490092119, -346514903096, -346514902970);
    }
}

/// The step of `lemma_inv_fac_error_bounds` for the entries 161 to 170.
proof fn lemma_inv_fac_error_bounds_161_to_170(n: nat)
    requires
        161 <= n <= 170,
        inv_fac_error_between(
            (n - 1) as nat,
            inv_fac_error_low((n - 1) as nat),
            inv_fac_error_high((n - 1) as nat),
        ),
    ensures
        inv_fac_error_between(n, inv_fac_error_low(n), inv_fac_error_high(n)),
{
    lemma2_to64();
    if n == 161 {
        lemma_inv_fac_error_step(161, 0x142f7d51e00a69, 0x100c508d6a9106, 128, -346514903096, -346514902970, 202558424521, 202558424623);
    } else if n == 162 {
        lemma_inv_fac_error_step(162, 0x100c508d6a9106, 0x195c26cc8279b7, 256, 202558424521, 202558424623, -19263115503, -19263115341);
    } else if n == 163 {
        lemma_inv_fac_error_step(163, 0x195c26cc8279b7, 0x13ea219be2886a, 128, -19263115503, -19263115341, -28617803926, -28617803798);
    } else if n == 164 {
        lemma_inv_fac_error_step(164, 0x13ea219be2886a, 0x1f160effd200a6, 256, -28617803926, -28617803798, 545310155117, 545310155318);
    } else if n == 165 {
        lemma_inv_fac_error_step(165, 0x1f160effd200a6, 0x181d86349cb47a, 128, 545310155117, 545310155318, -203359958522, -203359958365);
    } else if n == 166 {
        lemma_inv_fac_error_step(166, 0x181d86349cb47a, 0x12984ecf1f6311, 128, -203359958522, -203359958365, -117066294724, -117066294602);
    } else if n == 167 {
        lemma_inv_fac_error_step(167, 0x12984ecf1f6311, 0x1c813d0651d6b7, 256, -117066294724, -117066294602, 459183571526, 459183571714);
    } else if n == 168 {
        lemma_inv_fac_error_step(168, 0x1c813d0651d6b7, 0x15b7ccf89fe08b, 128, 459183571526, 459183571714, -121365119313, -121365119169);
    } else if n == 169 {
        lemma_inv_fac_error_step(169, 0x15b7ccf89fe08b, 0x1072f9295f56c1, 128, -121365119313, -121365119169, -241559187639, -241559187529);
    } else {
        lemma_inv_fac_error_step(170, 0x1072f9295f56c1, 0x18c53af9080a2c, 256, -241559187639, -241559187529, -1567652237, -1567652070);
    }
}

/// The step of `lemma_inv_fac_error_bounds` for the entries 171 to 177.
proof fn lemma_inv_fac_error_bounds_171_to_177(n: nat)
    requires
        171 <= n <= 177,
        inv_fac_error_between(
            (n - 1) as nat,
            inv_fac_error_low((n - 1) as nat),
            inv_fac_error_high((n - 1) as nat),
        ),
    ensures
        inv_fac_error_between(n, inv_fac_error_low(n), inv_fac_error_high(n)),
{
    lemma2_to64();
    if n == 171 {
        lemma_inv_fac_error_step(171, 0x18c53af9080a2c, 0x9455373a92f4, 4, -1567652237, -1567652070, 488635164339, 488635164344);
    } else if n == 172 {
        lemma_inv_fac_error_step(172, 0x9455373a92f4, 0xdcc6464b46, 1, 488635164339, 488635164344, 130691091394, 130691091395);
    } else if n == 173 {
        lemma_inv_fac_error_step(173, 0xdcc6464b46, 0x146b1fa84, 1, 130691091394, 130691091395, -113644613923, -113644613922);
    } else if n == 174 {
        lemma_inv_fac_error_step(174, 0x146b1fa84, 0x1e0a7b1, 1, -113644613923, -113644613922, -341880876517, -341880876516);
    } else if n == 175 {
        lemma_inv_fac_error_step(175, 0x1e0a7b1, 0x2bf21, 1, -341880876517, -341880876516, -215573006977, -215573006976);
    } else if n == 176 {
        lemma_inv_fac_error_step(176, 0x2bf21, 0x3ff, 1, -215573006977, -215573006976, 292394735786, 292394735787);
    } else {
        lemma_inv_fac_error_step(177, 0x3ff, 0x6, 1, 292394735786, 292394735787, 243917221576, 243917221577);
    }
}

/// The error of every reciprocal lies between its bounds.
pub proof fn lemma_inv_fac_error_bounds(n: nat)
    requires
        n <= 177,
    ensures
        inv_fac_error_between(n, inv_fac_error_low(n), inv_fac_error_high(n)),
    decreases n,
{
    if n == 0 {
        lemma_power_of_two(b64(ONE), 1023);
        assert(factorial(0) == 1);
    } else {
        lemma_inv_fac_error_bounds((n - 1) as nat);
        if n <= 10 {
            lemma_inv_fac_error_bounds_1_to_10(n);
        } else if n <= 20 {
            lemma_inv_fac_error_bounds_11_to_20(n);
        } else if n <= 30 {
            lemma_inv_fac_error_bounds_21_to_30(n);
        } else if n <= 40 {
            lemma_inv_fac_error_bounds_31_to_40(n);
        } else if n <= 50 {
            lemma_inv_fac_error_bounds_41_to_50(n);
        } else if n <= 60 {
            lemma_inv_fac_error_bounds_51_to_60(n);
        } else if n <= 70 {
            lemma_inv_fac_error_bounds_61_to_70(n);
        } else if n <= 80 {
            lemma_inv_fac_error_bounds_71_to_80(n);
        } else if n <= 90 {
            lemma_inv_fac_error_bounds_81_to_90(n);
        } else if n <= 100 {
            lemma_inv_fac_error_bounds_91_to_100(n);
        } else if n <= 110 {
            lemma_inv_fac_error_bounds_101_to_110(n);
        } else if n <= 120 {
            lemma_inv_fac_error_bounds_111_to_120(n);
        } else if n <= 130 {
            lemma_inv_fac_error_bounds_121_to_130(n);
        } else if n <= 140 {
            lemma_inv_fac_error_bounds_131_to_140(n);
        } else if n <= 150 {
            lemma_inv_fac_error_bounds_141_to_150(n);
        } else if n <= 160 {
            lemma_inv_fac_error_bounds_151_to_160(n);
        } else if n <= 170 {
            lemma_inv_fac_error_bounds_161_to_170(n);
        } else {
            lemma_inv_fac_error_bounds_171_to_177(n);
        }
    }
}

/// Every entry of the table of the reciprocals is `1/n!` to within one unit
/// in its last place: the entry times `n!` differs from 1 by less than
/// `n!` units.
pub proof fn lemma_inv_fac_rounded(n: nat)
    requires
        n <= 177,
    ensures
        -(factorial(n) * inv_fac_spec(n as int).ulp()) < inv_fac_error(n) < factorial(n)
            * inv_fac_spec(n as int).ulp(),
{
    lemma_inv_fac_error_bounds(n);
    lemma_factorial_positive(n);
    let x = inv_fac_spec(n as int);
    let unit = (factorial(n) * x.ulp()) as int;
    let low = inv_fac_error_low(n);
    let high = inv_fac_error_high(n);
    let error = inv_fac_error(n);
    let k = parts();
    assert(-k < low && high < k);
    assert(x.ulp() > 0) by {
        lemma_pow2_pos(x.scale());
    }
    assert(unit > 0) by (nonlinear_arith)
        requires
            unit == factorial(n) * x.ulp(),
            factorial(n) > 0,
            x.ulp() > 0,
    ;
    assert(-unit < error < unit) by (nonlinear_arith)
        requires
            low * unit <= error * k,
            error * k <= high * unit,
            -k < low,
            high < k,
            k > 0,
            unit > 0,
    ;
}

/// The factorials are positive and never decrease.
pub proof fn lemma_factorial_positive(n: nat)
    ensures
        factorial(n) >= 1,
        n >= 1 ==> factorial(n) >= factorial((n - 1) as nat),
    decreases n,
{
    if n > 0 {
        lemma_factorial_positive((n - 1) as nat);
        let before = factorial((n - 1) as nat);
        assert(n * before >= before) by (nonlinear_arith)
            requires
                n >= 1,
                before >= 0,
        ;
    }
}

/// From `171!` on a factorial is at least `2^1024`, beyond every finite
/// binary64 number: the table ends where it must.
pub proof fn lemma_fac_overflows(n: nat)
    requires
        n >= 171,
    ensures
        factorial(n) * pow2(1074) >= b64(INFINITY_BITS).magnitude(),
    decreases n,
{
    let one = pow2(1074);
    if n == 171 {
        lemma_fac_rounded(170);
        lemma2_to64();
        let x = fac_spec(170);
        let unit = x.ulp();
        let last = factorial(170) * one;
        assert(x.exponent() == 2042);
        lemma_pow2_adds(5, 2041);
        assert(b64(INFINITY_BITS).magnitude() == 0x10000000000000 * pow2(2046));
        assert(x.scaled() == x.significand() * unit);
        assert(x.significand() >= 0x10000000000000);
        assert(factorial(171) == 171 * factorial(170));
        assert(171 * last >= 0x10000000000000 * (32 * unit)) by (nonlinear_arith)
            requires
                last > x.significand() * unit - unit,
                x.significand() >= 0x10000000000000,
                unit > 0,
        ;
        assert((171 * factorial(170)) * one == 171 * last) by (nonlinear_arith)
            requires
                last == factorial(170) * one,
        ;
    } else {
        lemma_fac_overflows((n - 1) as nat);
        lemma_factorial_positive(n);
        let before = factorial((n - 1) as nat);
        let now = factorial(n);
        assert(now * one >= before * one) by (nonlinear_arith)
            requires
                now >= before,
                one >= 0,
        ;
    }
}

/// From `178!` on a factorial is more than `2^1075`, so that its reciprocal
/// is less than half the least positive binary64 number and rounds to
/// zero: the table of the reciprocals ends where it must.
pub proof fn lemma_inv_fac_underflows(n: nat)
    requires
        n >= 178,
    ensures
        factorial(n) > 2 * pow2(1074),
    decreases n,
{
    let one = pow2(1074) as int;
    if n == 178 {
        lemma_inv_fac_rounded(177);
        lemma_factorial_positive(177);
        let x = inv_fac_spec(177);
        let last = factorial(177) as int;
        lemma2_to64();
        assert(x.exponent() == 0 && x.fraction() == 6);
        assert(x.ulp() == 1 && x.scaled() == 6);
        assert(factorial(177) * x.ulp() == last) by (nonlinear_arith)
            requires
                x.ulp() == 1,
                last == factorial(177),
        ;
        assert(x.scaled() * factorial(177) == 6 * last) by (nonlinear_arith)
            requires
                x.scaled() == 6,
                last == factorial(177),
        ;
        assert(one < 7 * last);
        assert(factorial(178) == 178 * factorial(177));
    } else {
        lemma_inv_fac_underflows((n - 1) as nat);
        lemma_factorial_positive(n);
    }
}

} // verus!
