//! The Riemann zeta function at the integers, as binary64 numbers.
//!
//! At the negative even integers zeta vanishes. At the negative odd
//! integers it is tabulated as far as it is finite in binary64, and beyond
//! that it is an infinity whose sign alternates as the values do. At the
//! integers from 2 on it is tabulated up to 53, where it has become 1 to
//! the last bit.
//!
//! An entry is the binary64 number nearest to the decimal value beside it.
//! What is proved of the entries is their order, their range and their
//! signs, and from 34 on their exact value `1 + 2^-n`.
use crate::ieee::{
    b64, lemma_power_of_two, Binary64, HIDDEN_BIT, INFINITY_BITS, NEG_HALF, NEG_INFINITY_BITS, ONE,
    TWO, ZERO,
};
use vstd::arithmetic::power2::{lemma2_to64, lemma2_to64_rest, lemma_pow2_adds, pow2};
use vstd::prelude::*;

verus! {

/// The bits of zeta(2), zeta(3), ..., zeta(53), each with its decimal value.
pub const ZETAS_POS: [u64; 52] = [
    0x3ffa51a6625307d3,  // 1.6449340668482264
    0x3ff33ba004f00621,  // 1.2020569031595943
    0x3ff151322ac7d848,  // 1.0823232337111382
    0x3ff097418eca7cce,  // 1.0369277551433699
    0x3ff0470984c09244,  // 1.0173430619844491
    0x3ff02232da14cf38,  // 1.0083492773819228
    0x3ff010b36af86397,  // 1.0040773561979443
    0x3ff00839f3d816b5,  // 1.0020083928260822
    0x3ff00412e33a5bba,  // 1.0009945751278181
    0x3ff0020631be48b3,  // 1.0004941886041195
    0x3ff001020a5b2cd3,  // 1.0002460865533080
    0x3ff00080ac9d08bc,  // 1.0001227133475785
    0x3ff00040392bcad3,  // 1.0000612481350587
    0x3ff0002012f797e2,  // 1.0000305882363070
    0x3ff00010064cdeb2,  // 1.0000152822594087
    0x3ff00008021839b4,  // 1.0000076371976379
    0x3ff0000400b2654e,  // 1.0000038172932650
    0x3ff00002003b611f,  // 1.0000019082127166
    0x3ff000010013c594,  // 1.0000009539620339
    0x3ff00000800695d6,  // 1.0000004769329868
    0x3ff000004002319b,  // 1.0000002384505027
    0x3ff000002000bb1e,  // 1.0000001192199260
    0x3ff0000010003e5a,  // 1.0000000596081891
    0x3ff00000080014c7,  // 1.0000000298035035
    0x3ff00000040006ed,  // 1.0000000149015548
    0x3ff000000200024f,  // 1.0000000074507118
    0x3ff00000010000c5,  // 1.0000000037253340
    0x3ff0000000800042,  // 1.0000000018626597
    0x3ff0000000400016,  // 1.0000000009313274
    0x3ff0000000200007,  // 1.0000000004656629
    0x3ff0000000100003,  // 1.0000000002328312
    0x3ff0000000080001,  // 1.0000000001164155
    0x3ff0000000040000,  // 1 + 2^-34
    0x3ff0000000020000,  // 1 + 2^-35
    0x3ff0000000010000,  // 1 + 2^-36
    0x3ff0000000008000,  // 1 + 2^-37
    0x3ff0000000004000,  // 1 + 2^-38
    0x3ff0000000002000,  // 1 + 2^-39
    0x3ff0000000001000,  // 1 + 2^-40
    0x3ff0000000000800,  // 1 + 2^-41
    0x3ff0000000000400,  // 1 + 2^-42
    0x3ff0000000000200,  // 1 + 2^-43
    0x3ff0000000000100,  // 1 + 2^-44
    0x3ff0000000000080,  // 1 + 2^-45
    0x3ff0000000000040,  // 1 + 2^-46
    0x3ff0000000000020,  // 1 + 2^-47
    0x3ff0000000000010,  // 1 + 2^-48
    0x3ff0000000000008,  // 1 + 2^-49
    0x3ff0000000000004,  // 1 + 2^-50
    0x3ff0000000000002,  // 1 + 2^-51
    0x3ff0000000000001,  // 1 + 2^-52
    0x3ff0000000000001,  // 1 + 2^-52
];

/// The bits of zeta(-1), zeta(-3), ..., zeta(-259): the values at the odd
/// negative integers that are finite in binary64, each with its decimal value.
pub const ZETAS_NEG: [u64; 130] = [
    0xbfb5555555555555,  // -8.3333333333333333e-2
    0x3f81111111111111,  // 8.3333333333333333e-3
    0xbf70410410410410,  // -3.9682539682539683e-3
    0x3f71111111111111,  // 4.1666666666666667e-3
    0xbf7f07c1f07c1f08,  // -7.5757575757575758e-3
    0x3f95995995995996,  // 2.1092796092796093e-2
    0xbfb5555555555555,  // -8.3333333333333333e-2
    0x3fdc5e5e5e5e5e5e,  // 4.4325980392156863e-1
    0xc0086e7f9b9fe6e8,  // -3.0539543302701197
    0x403a74ca514ca515,  // 2.6456212121212121e1
    0xc071975cc0ed7304,  // -2.8146014492753623e2
    0x40ac2f0566566566,  // 3.6075105463980464e3
    0xc0eac572aaaaaaab,  // -5.4827583333333333e4
    0x412dc0b1a5cfbe16,  // 9.7493682385057471e5
    0xc1731fad7cbf3c00,  // -2.0052695796688079e7
    0x41bc280563b8bcbd,  // 4.7238486772162990e8
    0xc207892edfdf5556,  // -1.2635724795916667e10
    0x42562b8b44651d09,  // 3.8087931125245369e11
    0xc2a76024c215d22a,  // -1.2850850499305083e13
    0x42fb6c0dfed2955b,  // 4.8241448354850170e14
    0xc351cca39b77b027,  // -2.0040310656516253e16
    0x43a97212d8cc1040,  // 9.1677436031953308e17
    0xc403f0cb06b17e29,  // -4.5979888343656503e19
    0x4461101d96823ee1,  // 2.5180471921451096e21
    0xc4bfc474bdd53c20,  // -1.5001733492153929e23
    0x452007db56db95df,  // 9.6899578874635941e24
    0xc5817c6dd28a9378,  // -6.7645882379292821e26
    0x45e48df88a383ad8,  // 5.0890659468662290e28
    0xc649f7b3fa37f314,  // -4.1147288792557979e30
    0x46b195c16c40d563,  // 3.5666582095375556e32
    0xc7197922eafb5d17,  // -3.3066089876577577e34
    0x4783b0a43def5904,  // 3.2715634236478716e36
    0xc7f035a171273534,  // -3.4473782558278054e38
    0x485c5e89f1fd242e,  // 3.8614279832705259e40
    0xc8ca575dd47b788a,  // -4.5892974432454332e42
    0x4939e84a01ae153b,  // 5.7775386342770432e44
    0xc9aaf26959307253,  // -7.6919858759507135e46
    0x4a1d9890bc68eedd,  // 1.0813635449971655e49
    0xca91231831c6ccbc,  // -1.6029364522008965e51
    0x4b04e5b1c79769ad,  // 2.5019479041560463e53
    0xcb7acc2917790915,  // -4.1067052335810212e55
    0x4bf20bd5e935fc86,  // 7.0798774408494581e57
    0xcc697f9f572293ec,  // -1.2804546887939509e60
    0x4ce2e083516087a9,  // 2.4267340392333524e62
    0xcd5d41e650690e84,  // -4.8143218874045769e64
    0x4dd7b59a0f58ffb7,  // 9.9875574175727531e66
    0xce5412709736939f,  // -2.1645634868435186e69
    0x4ed1bc48bbc5cc50,  // 4.8962327039620553e71
    0xcf50575ec3ab2234,  // -1.1549023923963520e74
    0x4fcf5fe45963cac2,  // 2.8382249570693707e76
    0xd04f5abf07320db9,  // -7.2612008803606716e78
    0x50d04c0734d5322d,  // 1.9323514233419812e81
    0xd1519bdb7ca080b5,  // -5.3450160425288624e83
    0x51d3c2f25da2f119,  // 1.5356028846422423e86
    0xd25704a6714a172b,  // -4.5789872682265798e88
    0x52dbcf2002532ee3,  // 1.4162025212194809e91
    0xd36169855a5defaf,  // -4.5400652296092655e93
    0x53e6963e57ed41e0,  // 1.5076656758807860e96
    0xd46e54fbbb872117,  // -5.1830949148264564e98
    0x54f5125bc119ad89,  // 1.8435647427256529e101
    0xd57e4616e3d8d09a,  // -6.7805554753090959e103
    0x560679a15f64d5aa,  // 2.5773326702754605e106
    0xd6913c15fcb28309,  // -1.0119112875704598e109
    0x571b49d69397c7aa,  // 4.1016346161542292e111
    0xd7a64abed86e0175,  // -1.7155244534032019e114
    0x5832c8197ead1271,  // 7.4003425705269094e116
    0xd8c05015c2200ed0,  // -3.2909225357054443e119
    0x594d32f2c47ba10c,  // 1.5079831534164771e122
    0xd9daea4c26df15f6,  // -7.1169879188254549e124
    0x5a698adca0fa6ca5,  // 3.4580429141577772e127
    0xdaf8f1dcfb3cd633,  // -1.7290907606676748e130
    0x5b890f42af6fe074,  // 8.8936991695032969e132
    0xdc19e2f8a971c6f1,  // -4.7038470619636015e135
    0x5cab7c7b687b5bb5,  // 2.5571938231060206e138
    0xdd3dfcb00aa4c2cf,  // -1.4284067500443528e141
    0x5dd0cd20cf8a2e4d,  // 8.1952152218313783e143
    0xde6354a937fa88e0,  // -4.8276485422727372e146
    0x5ef6d400c144ce9e,  // 2.9189612374770324e149
    0xdf8ba92b59047eb7,  // -1.8108932162568904e152
    0x60213079715a5f67,  // 1.1523577220021169e155
    0xe0b5e8194cdc3f82,  // -7.5192311951981770e157
    0x614c9e5d8fd49582,  // 5.0294016576411050e160
    0xe1e32811f8ce591d,  // -3.4473420444477677e163
    0x627a45eae570d41f,  // 2.4207458645868515e166
    0xe31273c29596492d,  // -1.7409465920377677e169
    0x63aa89a664a7f630,  // 1.2819489863482243e172
    0xe443888d893937f4,  // -9.6624121108560918e174
    0x64dd6d21fe9b4fb0,  // 7.4526910304300896e177
    0xe576acfec47defa2,  // -5.8808393311674371e180
    0x6611df41024fe6a3,  // 4.7462718654907615e183
    0xe6acce916a2f02f0,  // -3.9169132594772825e186
    0x6747bbbe1e92e94a,  // 3.3045071443226032e189
    0xe7e3fbfc0ec34e1d,  // -2.8492890550994583e192
    0x688131bca925b254,  // 2.5103329345077587e195
    0xe91e39bd06647752,  // -2.2593901995475253e198
    0x69bb221ac47c86e0,  // 2.0769138004287608e201
    0xea58df13eed18d1c,  // -1.9494732174927259e204
    0x6af746394821e395,  // 1.8680731471265914e207
    0xeb963ae13ac3b026,  // -1.8270752662814577e210
    0x6c35aabe04f8c67a,  // 1.8235386322595677e213
    0xecd58bbf428596ed,  // -1.8568690810125945e216
    0x6d75dae583a2ec22,  // 1.9287189851195602e219
    0xee169bd69fe4f932,  // -2.0431170460286448e222
    0x6eb7d91ef248869e,  // 2.2068411644527846e225
    0xef59a524a0bade89,  // -2.4300821796490274e228
    0x6ffc1beb34433779,  // 2.7274887879083470e231
    0xf09f65e3ac01ea15,  // -3.1197421573755085e234
    0x7141de16aac99ca0,  // 3.6358938724282600e237
    0xf1e4b772d3493200,  // -4.3168300030760883e240
    0x7288773e40dfb0fc,  // 5.2204244879387200e243
    0xf32d6cc45b224f15,  // -6.4292606949769305e246
    0x73d2045ac38dd8a4,  // 8.0623033870130844e249
    0xf47676570ca34f9a,  // -1.0292714737903011e253
    0x751c81664d778b77,  // 1.3375329699780524e256
    0xf5c26878cbea9079,  // -1.7689480902797380e259
    0x7668316588b6f01f,  // 2.3806479018092397e262
    0xf7102cca013a32ba,  // -3.2597127947194185e265
    0x77b60093b4de4a0c,  // 4.5404962371601213e268
    0xf85e710e4f684dc4,  // -6.4328575193147851e271
    0x79056aae477be8b3,  // 9.2687048675749311e274
    0xf9aea46ed1302180,  // -1.3579619500285181e278
    0x7a56497f4d14a840,  // 2.0227839736049322e281
    0xfb007a84272d9086,  // -3.0629906992208336e284
    0x7ba8c4a014ed454c,  // 4.7143085300742652e287
    0xfc52eac3f040d3c9,  // -7.3741045871355758e290
    0x7cfd5d0cebc40e54,  // 1.1720962767050827e294
    0xfda727996cbff9f8,  // -1.8928866644685657e297
    0x7e528c927cd93856,  // 3.1055517596048927e300
    0xfefe302a7f7edba3,  // -5.1754977470366798e303
    0x7fa8f3230ab143bf,  // 8.7601563446229215e306
];

/// zeta(n) for every integer `n`: the pole at 1 counts as positive infinity.
pub open spec fn zeta_spec(n: int) -> Binary64 {
    if n < 0 {
        let k = (1 - n) / 2;
        if n % 2 == 0 {
            b64(ZERO)
        } else if k <= 130 {
            b64(ZETAS_NEG[k - 1])
        } else if k % 2 == 0 {
            b64(INFINITY_BITS)
        } else {
            b64(NEG_INFINITY_BITS)
        }
    } else if n == 0 {
        b64(NEG_HALF)
    } else if n == 1 {
        b64(INFINITY_BITS)
    } else if n <= 53 {
        b64(ZETAS_POS[n - 2])
    } else {
        b64(ONE)
    }
}

/// The Riemann zeta function at the integer `n`.
pub fn zeta(n: i32) -> (z: Binary64)
    ensures
        z == zeta_spec(n as int),
        !z.nan(),
        n < 0 && n % 2 == 0 ==> z == b64(ZERO),
        n >= 2 ==> z.finite() && !z.sign(),
{
    if n < 0 {
        let m: i32 = -1 - n;
        let index: i32 = m / 2;
        if m % 2 == 1 {
            b64(ZERO)
        } else if index < 130 {
            b64(ZETAS_NEG[index as usize])
        } else if index % 2 == 1 {
            b64(INFINITY_BITS)
        } else {
            b64(NEG_INFINITY_BITS)
        }
    } else if n == 0 {
        b64(NEG_HALF)
    } else if n == 1 {
        b64(INFINITY_BITS)
    } else if n <= 53 {
        b64(ZETAS_POS[(n - 2) as usize])
    } else {
        b64(ONE)
    }
}

/// At a negative odd integer `1 - 2k` zeta is not zero and has the sign of
/// `(-1)^k`, in the table and beyond it.
pub proof fn lemma_zeta_sign(n: int)
    requires
        n < 0,
        n % 2 != 0,
    ensures
        !zeta_spec(n).zero(),
        zeta_spec(n).sign() == (((1 - n) / 2) % 2 == 1),
{
}

/// From 2 on zeta lies in `[1, 2)` and never increases.
pub proof fn lemma_zeta_decreases(m: int, n: int)
    requires
        2 <= m <= n,
    ensures
        b64(ONE).le_spec(zeta_spec(n)),
        zeta_spec(n).le_spec(zeta_spec(m)),
        zeta_spec(m).lt_spec(b64(TWO)),
    decreases n - m,
{
    zeta_spec(m).lemma_magnitude_order(b64(TWO));
    b64(ONE).lemma_magnitude_order(zeta_spec(m));
    if m < n {
        lemma_zeta_decreases(m + 1, n);
        zeta_spec(m).lemma_magnitude_order(zeta_spec(m + 1));
        zeta_spec(m + 1).lemma_magnitude_order(zeta_spec(m));
    }
}

/// From 34 to 52 the value of zeta(n) is exactly `1 + 2^-n`: the later terms
/// of the series are below half a unit in the last place.
pub proof fn lemma_zeta_tail(n: nat)
    requires
        34 <= n <= 52,
    ensures
        zeta_spec(n as int).scaled() == pow2(1074) + pow2((1074 - n) as nat),
{
    let z = zeta_spec(n as int);
    let low = pow2((52 - n) as nat);
    lemma2_to64();
    lemma2_to64_rest();
    assert(z.bits == ONE + low);
    assert(z.exponent() == 1023 && z.fraction() == low);
    lemma_power_of_two(b64(ONE), 1023);
    lemma_pow2_adds((52 - n) as nat, 1022);
    assert((HIDDEN_BIT + low) * pow2(1022) == HIDDEN_BIT * pow2(1022) + low * pow2(1022))
        by (nonlinear_arith);
}

} // verus!
