//! The polylogarithm at -1, which is the negated Dirichlet eta function
//! `-eta(n) = (2^(1-n) - 1) zeta(n)`, at the integers, as binary64 numbers.
//!
//! At the negative even integers it vanishes. At the negative odd integers
//! it is tabulated as far as it is finite in binary64, and beyond that it is
//! an infinity whose sign alternates as the values do. At the positive
//! integers it is tabulated up to 54, where it has become -1 to the last bit.
//!
//! An entry is the binary64 number nearest to the decimal value beside it.
//! What is proved of the entries is their order, their range and their
//! signs, and in the module `relation` that they are the entries of zeta
//! times `2^(1-n) - 1`, within rounding.
use crate::ieee::{b64, Binary64, INFINITY_BITS, NEG_HALF, NEG_INFINITY_BITS, NEG_ONE, ZERO};
use crate::li::zeta::zeta_spec;
use vstd::prelude::*;

verus! {

/// The bits of -eta(1), -eta(2), ..., -eta(54), each with its decimal value.
pub const NEG_ETA_POS: [u64; 54] = [
    0xbfe62e42fefa39ef,  // -6.9314718055994531e-1
    0xbfea51a6625307d3,  // -8.2246703342411322e-1
    0xbfecd97007680932,  // -9.0154267736969571e-1
    0xbfee4e17caddba7e,  // -9.4703282949724592e-1
    0xbfef1b9aebbbaa02,  // -9.7211977044690931e-1
    0xbfef89a271351b65,  // -9.8555109129743510e-1
    0xbfefc3541d58f7f7,  // -9.9259381992283028e-1
    0xbfefe1240844e59f,  // -9.9623300185264790e-1
    0xbfeff06373c87d3d,  // -9.9809429754160533e-1
    0xbfeff821b3917d17,  // -9.9903950759827157e-1
    0xbfeffc0b6063b242,  // -9.9951714349806075e-1
    0xbfeffe03d433c2db,  // -9.9975768514385819e-1
    0xbfefff0149247dd7,  // -9.9987854276326512e-1
    0xbfefff806e5402ea,  // -9.9993917034597972e-1
    0xbfefffc024ee9808,  // -9.9996955121309924e-1
    0xbfefffe00c59a431,  // -9.9998476421490611e-1
    0xbfeffff004206f38,  // -9.9999237829204101e-1
    0xbfeffff80160c9e9,  // -9.9999618786961011e-1
    0xbfeffffc0075c221,  // -9.9999809350817168e-1
    0xbfeffffe00274b24,  // -9.9999904661158152e-1
    0xbfefffff000d1baa,  // -9.9999952325821554e-1
    0xbfefffff80045f36,  // -9.9999976161323082e-1
    0xbfefffffc001753c,  // -9.9999988080131844e-1
    0xbfefffffe0007c74,  // -9.9999994039889239e-1
    0xbfeffffff000297f,  // -9.9999997019885696e-1
    0xbfeffffff8000dd6,  // -9.9999998509923200e-1
    0xbfeffffffc00049d,  // -9.9999999254955048e-1
    0xbfeffffffe00018a,  // -9.9999999627475340e-1
    0xbfefffffff000083,  // -9.9999999813736942e-1
    0xbfefffffff80002c,  // -9.9999999906868228e-1
    0xbfefffffffc0000f,  // -9.9999999953434033e-1
    0xbfefffffffe00005,  // -9.9999999976716990e-1
    0xbfeffffffff00002,  // -9.9999999988358486e-1
    0xbfeffffffff80001,  // -9.9999999994179240e-1
    0xbfeffffffffc0000,  // -9.9999999997089619e-1
    0xbfeffffffffe0000,  // -9.9999999998544809e-1
    0xbfefffffffff0000,  // -9.9999999999272404e-1
    0xbfefffffffff8000,  // -9.9999999999636202e-1
    0xbfefffffffffc000,  // -9.9999999999818101e-1
    0xbfefffffffffe000,  // -9.9999999999909051e-1
    0xbfeffffffffff000,  // -9.9999999999954525e-1
    0xbfeffffffffff800,  // -9.9999999999977263e-1
    0xbfeffffffffffc00,  // -9.9999999999988631e-1
    0xbfeffffffffffe00,  // -9.9999999999994316e-1
    0xbfefffffffffff00,  // -9.9999999999997158e-1
    0xbfefffffffffff80,  // -9.9999999999998579e-1
    0xbfefffffffffffc0,  // -9.9999999999999289e-1
    0xbfefffffffffffe0,  // -9.9999999999999645e-1
    0xbfeffffffffffff0,  // -9.9999999999999822e-1
    0xbfeffffffffffff8,  // -9.9999999999999911e-1
    0xbfeffffffffffffc,  // -9.9999999999999956e-1
    0xbfeffffffffffffe,  // -9.9999999999999978e-1
    0xbfefffffffffffff,  // -9.9999999999999989e-1
    0xbfefffffffffffff,  // -9.9999999999999994e-1
];

/// The bits of -eta(-1), -eta(-3), ..., -eta(-217): the values at the odd
/// negative integers that are finite in binary64, each with its decimal value.
pub const NEG_ETA_NEG: [u64; 109] = [
    0xbfd0000000000000,  // -2.5000000000000000e-1
    0x3fc0000000000000,  // 1.2500000000000000e-1
    0xbfd0000000000000,  // -2.5000000000000000e-1
    0x3ff1000000000000,  // 1.0625000000000000
    0xc01f000000000000,  // -7.7500000000000000
    0x4055980000000000,  // 8.6375000000000000e1
    0xc095550000000000,  // -1.3652500000000000e3
    0x40dc5e4200000000,  // 2.9049031250000000e4
    0xc1286e7980000000,  // -8.0057275000000000e5
    0x417a74c8aa000000,  // 2.7741322625000000e7
    0xc1d1975c7a900000,  // -1.1805291302500000e9
    0x422c2f054a276000,  // 6.0523980051687500e10
    0xc28ac572a3f94e00,  // -3.6794167785377500e12
    0x42edc0b1a3f3b2fc,  // 2.6170760990658388e14
    0xc3531fad7c72bd4a,  // -2.1531418140800295e16
    0x43bc2805639c94b7,  // 2.0288775575173016e18
    0xc427892edfd9730a,  // -2.1708009902623771e20
    0x44962b8b4463ba51,  // 2.6173826968455815e22
    0xc5076024c21574aa,  // -3.5324148876863878e24
    0x457b6c0dfed279ef,  // 5.3042033406864907e26
    0xc5f1cca39b77abb4,  // -8.8138218364311577e28
    0x46697212d8cc0ea9,  // 1.6128065107490779e31
    0xc6e3f0cb06b17dd9,  // -3.2355470001722734e33
    0x4761101d96823ed0,  // 7.0876727476537493e35
    0xc7dfc474bdd53c18,  // -1.6890450341293966e38
    0x486007db56db95de,  // 4.3639690731216831e40
    0xc8e17c6dd28a9378,  // -1.2185998827061261e43
    0x49648df88a383ad8,  // 3.6670584803153006e45
    0xc9e9f7b3fa37f314,  // -1.1859898526302099e48
    0x4a7195c16c40d563,  // 4.1120769493584015e50
    0xcaf97922eafb5d17,  // -1.5249042436787620e53
    0x4b83b0a43def5904,  // 6.0349693196941307e55
    0xcc1035a171273534,  // -2.5437161764210696e58
    0x4c9c5e89f1fd242e,  // 1.1396923802632288e61
    0xcd2a575dd47b788a,  // -5.4180861064753979e63
    0x4db9e84a01ae153b,  // 2.7283654799994374e66
    0xce4af26959307252,  // -1.4529750514918543e69
    0x4edd9890bc68eedc,  // 8.1705519371067450e71
    0xcf71231831c6ccbc,  // -4.8445781606678368e74
    0x5004e5b1c79769ad,  // 3.0246694206649519e77
    0xd09acc2917790916,  // -1.9858807961690493e80
    0x51320bd5e935fc86,  // 1.3694474620720087e83
    0xd1c97f9f572293ec,  // -9.9070382984295808e85
    0x5262e083516087a9,  // 7.5103780796592646e88
    0xd2fd41e650690e84,  // -5.9598418264260881e91
    0x5397b59a0f58ffb7,  // 4.9455988887500020e94
    0xd43412709736939f,  // -4.2873596927020241e97
    0x54d1bc48bbc5cc50,  // 3.8791952037716163e100
    0xd570575ec3ab2234,  // -3.6600317773156342e103
    0x560f5fe45963cac2,  // 3.5978775704117284e106
    0xd6af5abf07320dba,  // -3.6818662617467813e109
    0x57504c0734d5322d,  // 3.9192743066421374e112
    0xd7f19bdb7ca080b5,  // -4.3363921885063858e115
    0x5893c2f25da2f119,  // 4.9833162711780838e118
    0xd93704a6714a172b,  // -5.9438653020209606e121
    0x59dbcf2002532ee3,  // 7.3533439019770134e124
    0xda8169855a5defaf,  // -9.4293465716973561e127
    0x5b26963e57ed41df,  // 1.2525196404154548e131
    0xdbce54fbbb872117,  // -1.7223787163994400e134
    0x5c75125bc119ad89,  // 2.4505178680729537e137
    0xdd1e4616e3d8d09a,  // -3.6051616659014189e140
    0x5dc679a15f64d5a9,  // 5.4813803836499771e143
    0xde713c15fcb28309,  // -8.6083892012122616e146
    0x5f1b49d69397c7aa,  // 1.3957139354298160e150
    0xdfc64abed86e0175,  // -2.3350508860591630e153
    0x6072c8197ead1271,  // 4.0291297374794860e156
    0xe1205015c2200ed0,  // -7.1669946227411534e159
    0x61cd32f2c47ba10c,  // 1.3136385964069363e163
    0xe27aea4c26df15f6,  // -2.4799083462304252e166
    0x63298adca0fa6ca5,  // 4.8198083696385558e169
    0xe3d8f1dcfb3cd633,  // -9.6400031196958281e172
    0x64890f42af6fe074,  // 1.9833611905147644e176
    0xe539e2f8a971c6f1,  // -4.1959717912682865e179
    0x65eb7c7b687b5bb5,  // 9.1243724595750010e182
    0xe69dfcb00aa4c2cf,  // -2.0386902382464212e186
    0x6750cd20cf8a2e4d,  // 4.6786408066350383e189
    0xe80354a937fa88e0,  // -1.1024400389046488e193
    0x68b6d400c144ce9e,  // 2.6662916424238258e196
    0xe96ba92b59047eb7,  // -6.6165585014771755e199
    0x6a213079715a5f66,  // 1.6841726974970032e203
    0xead5e8194cdc3f82,  // -4.3957474813006951e206
    0x6b8c9e5d8fd49581,  // 1.1760766011899571e210
    0xec432811f8ce591d,  // -3.2245094671360478e213
    0x6cfa45eae570d41e,  // 9.0570855543185808e216
    0xedb273c29596492d,  // -2.6054618058433054e220
    0x6e6a89a664a7f630,  // 7.6741449421726560e223
    0xef23888d893937f4,  // -2.3136880427961752e227
    0x6fdd6d21fe9b4fb0,  // 7.1382598572408242e230
    0xf096acfec47defa1,  // -2.2530900128907084e234
    0x7151df41024fe6a3,  // 7.2736404696018159e237
    0xf20cce916a2f02f0,  // -2.4010608416429639e241
    0x72c7bbbe1e92e94b,  // 8.1026279414941787e244
    0xf383fbfc0ec34e1d,  // -2.7945745738098571e248
    0x744131bca925b254,  // 9.8485095122481192e251
    0xf4fe39bd06647752,  // -3.5456055356238575e255
    0x75bb221ac47c86e1,  // 1.3036999220919921e259
    0xf678df13eed18d1c,  // -4.8948166866453784e262
    0x773746394821e395,  // 1.8761736309852136e266
    0xf7f63ae13ac3b026,  // -7.3399918877807488e269
    0x78b5aabe04f8c67b,  // 2.9303136033539038e273
    0xf9758bbf428596ee,  // -1.1935494277949469e277
    0x7a35dae583a2ec22,  // 4.9589310621971370e280
    0xfaf69bd69fe4f931,  // -2.1012240064879845e284
    0x7bb7d91ef248869e,  // 9.0784179834777353e287
    0xfc79a524a0bade89,  // -3.9987113012775244e291
    0x7d3c1beb34433779,  // 1.7952380922182709e295
    0xfdff65e3ac01ea15,  // -8.2136799002055846e298
    0x7ec1de16aac99ca0,  // 3.8290431596908477e302
    0xff84b772d3493200,  // -1.8184610414701105e306
];

/// -eta(n) for every integer `n`.
pub open spec fn neg_eta_spec(n: int) -> Binary64 {
    if n < 0 {
        let k = (1 - n) / 2;
        if n % 2 == 0 {
            b64(ZERO)
        } else if k <= 109 {
            b64(NEG_ETA_NEG[k - 1])
        } else if k % 2 == 0 {
            b64(INFINITY_BITS)
        } else {
            b64(NEG_INFINITY_BITS)
        }
    } else if n == 0 {
        b64(NEG_HALF)
    } else if n <= 54 {
        b64(NEG_ETA_POS[n - 1])
    } else {
        b64(NEG_ONE)
    }
}

/// No value is a NaN, and from 0 on every value is finite and negative.
pub proof fn lemma_neg_eta_range(n: int)
    ensures
        !neg_eta_spec(n).nan(),
        n >= 0 ==> neg_eta_spec(n).finite() && neg_eta_spec(n).sign(),
{
}

/// The negated Dirichlet eta function at the integer `n`.
pub fn neg_eta(n: i32) -> (e: Binary64)
    ensures
        e == neg_eta_spec(n as int),
        !e.nan(),
        n < 0 && n % 2 == 0 ==> e == b64(ZERO),
        n >= 0 ==> e.finite() && e.sign(),
{
    proof {
        lemma_neg_eta_range(n as int);
    }
    if n < 0 {
        let m: i32 = -1 - n;
        let index: i32 = m / 2;
        if m % 2 == 1 {
            b64(ZERO)
        } else if index < 109 {
            b64(NEG_ETA_NEG[index as usize])
        } else if index % 2 == 1 {
            b64(INFINITY_BITS)
        } else {
            b64(NEG_INFINITY_BITS)
        }
    } else if n == 0 {
        b64(NEG_HALF)
    } else if n <= 54 {
        b64(NEG_ETA_POS[(n - 1) as usize])
    } else {
        b64(NEG_ONE)
    }
}

/// At a negative odd integer `1 - 2k` the value is not zero and has the sign
/// of `(-1)^k`, in the table and beyond it: the sign of zeta there.
pub proof fn lemma_neg_eta_sign(n: int)
    requires
        n < 0,
        n % 2 != 0,
    ensures
        !neg_eta_spec(n).zero(),
        neg_eta_spec(n).sign() == (((1 - n) / 2) % 2 == 1),
        neg_eta_spec(n).sign() == zeta_spec(n).sign(),
{
}

/// From 1 on the values lie in `[-1, 0)` and never increase.
pub proof fn lemma_neg_eta_decreases(m: int, n: int)
    requires
        1 <= m <= n,
    ensures
        b64(NEG_ONE).le_spec(neg_eta_spec(n)),
        neg_eta_spec(n).le_spec(neg_eta_spec(m)),
        neg_eta_spec(m).lt_spec(b64(ZERO)),
    decreases n - m,
{
    neg_eta_spec(m).lemma_magnitude_order(b64(ZERO));
    b64(NEG_ONE).lemma_magnitude_order(neg_eta_spec(n));
    neg_eta_spec(n).lemma_magnitude_order(b64(NEG_ONE));
    if m < n {
        lemma_neg_eta_decreases(m + 1, n);
        neg_eta_spec(m).lemma_magnitude_order(neg_eta_spec(m + 1));
        neg_eta_spec(m + 1).lemma_magnitude_order(neg_eta_spec(m));
    }
}

/// The factor `2^(1-n) - 1` has absolute value below 1 from 2 on and above
/// 1 at the negative integers, and so has the ratio of the two tables:
/// `|eta(n)| <= |zeta(n)|` for `n >= 2`, strictly as long as eta has not
/// become -1, and `|eta(n)| >= |zeta(n)|` for `n < 0`.
pub proof fn lemma_neg_eta_against_zeta(n: int)
    requires
        n != 0,
        n != 1,
    ensures
        n >= 2 ==> neg_eta_spec(n).magnitude() <= zeta_spec(n).magnitude(),
        2 <= n <= 54 ==> neg_eta_spec(n).magnitude() < zeta_spec(n).magnitude(),
        n < 0 ==> neg_eta_spec(n).magnitude() >= zeta_spec(n).magnitude(),
{
    neg_eta_spec(n).lemma_magnitude_order(zeta_spec(n));
    zeta_spec(n).lemma_magnitude_order(neg_eta_spec(n));
}

} // verus!
