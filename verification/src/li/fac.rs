//! Factorials and their reciprocals as binary64 numbers.
//!
//! Both sequences are tabulated over the range in which they are finite and
//! nonzero in binary64. An entry is the binary64 number nearest to the
//! seventeen-digit decimal value beside it. That is the exact value within
//! one unit in the last place, and up to `22!` the factorial itself; the
//! module `accuracy` proves both.
use crate::ieee::{b64, Binary64, HALF, HIDDEN_BIT, INFINITY_BITS, ONE, ZERO};
use crate::li::accuracy::{
    lemma_fac_overflows, lemma_fac_rounded, lemma_inv_fac_rounded, lemma_inv_fac_underflows,
};
use vstd::arithmetic::power2::{lemma2_to64, lemma2_to64_rest, lemma_pow2_adds, pow2};
use vstd::prelude::*;

verus! {

/// The bits of 0!, 1!, ..., 170!, each with its decimal value.
pub const FAC: [u64; 171] = [
    0x3ff0000000000000,  // 1.0000000000000000
    0x3ff0000000000000,  // 1.0000000000000000
    0x4000000000000000,  // 2.0000000000000000
    0x4018000000000000,  // 6.0000000000000000
    0x4038000000000000,  // 2.4000000000000000e1
    0x405e000000000000,  // 1.2000000000000000e2
    0x4086800000000000,  // 7.2000000000000000e2
    0x40b3b00000000000,  // 5.0400000000000000e3
    0x40e3b00000000000,  // 4.0320000000000000e4
    0x4116260000000000,  // 3.6288000000000000e5
    0x414baf8000000000,  // 3.6288000000000000e6
    0x418308a800000000,  // 3.9916800000000000e7
    0x41bc8cfc00000000,  // 4.7900160000000000e8
    0x41f7328cc0000000,  // 6.2270208000000000e9
    0x42344c3b28000000,  // 8.7178291200000000e10
    0x4273077775800000,  // 1.3076743680000000e12
    0x42b3077775800000,  // 2.0922789888000000e13
    0x42f437eeecd80000,  // 3.5568742809600000e14
    0x4336beecca730000,  // 6.4023737057280000e15
    0x437b02b930689000,  // 1.2164510040883200e17
    0x43c0e1b3be415a00,  // 2.4329020081766400e18
    0x4406283be9b5c620,  // 5.1090942171709440e19
    0x444e77526159f06c,  // 1.1240007277776077e21
    0x4495e5c335f8a4ce,  // 2.5852016738884977e22
    0x44e06c52687a7b9a,  // 6.2044840173323944e23
    0x4529a940c33f6121,  // 1.5511210043330986e25
    0x4574d9849ea37eeb,  // 4.0329146112660564e26
    0x45c19787e5d9f316,  // 1.0888869450418352e28
    0x460ec92dd23d6967,  // 3.0488834461171386e29
    0x465be6518687a785,  // 8.8417619937397020e30
    0x46aa27ec6e1f2d0d,  // 2.6525285981219106e32
    0x46f956ad0aae33a4,  // 8.2228386541779228e33
    0x474956ad0aae33a4,  // 2.6313083693369353e35
    0x479a21627303a541,  // 8.6833176188118865e36
    0x47ebc3789a33df96,  // 2.9523279903960414e38
    0x483e5dcbe8a8bc8c,  // 1.0333147966386145e40
    0x489114c2b2deea0f,  // 3.7199332678990122e41
    0x48e3c0011ed1bea1,  // 1.3763753091226345e43
    0x493774015499125f,  // 5.2302261746660111e44
    0x498c95619f1a8e64,  // 2.0397882081197443e46
    0x49e1dd5d037098fe,  // 8.1591528324789773e47
    0x4a36e39f2c684406,  // 3.3452526613163807e49
    0x4a8e0ac0ea48d948,  // 1.4050061177528799e51
    0x4ae42f399d68f1fc,  // 6.0415263063373836e52
    0x4b3bc0ef38704cbb,  // 2.6582715747884488e54
    0x4b9383a833aef5f3,  // 1.1962222086548019e56
    0x4bec0d41ca4b818e,  // 5.5026221598120889e57
    0x4c4499bc508f7324,  // 2.5862324151116818e59
    0x4c9ee69a78d72cb6,  // 1.2413915592536073e61
    0x4cf7a88e4484be3b,  // 6.0828186403426756e62
    0x4d527baf2587b49e,  // 3.0414093201713378e64
    0x4dad751f23d047dd,  // 1.5511187532873823e66
    0x4e07ef294d193a63,  // 8.0658175170943879e67
    0x4e63d20e33d8e45a,  // 4.2748832840600256e69
    0x4ec0b93bfbbf00ac,  // 2.3084369733924138e71
    0x4f1cbe5f18b04928,  // 1.2696403353658276e73
    0x4f792693359a4003,  // 7.1099858780486345e74
    0x4fd6665b1bbd6102,  // 4.0526919504877217e76
    0x50344cc291239fea,  // 2.3505613312828786e78
    0x5092b6c35dccd76c,  // 1.3868311854568984e80
    0x50f18b5727f009f5,  // 8.3209871127413901e81
    0x5150b8cf1210c97e,  // 5.0758021387722480e83
    0x51b0330899804332,  // 3.1469973260387938e85
    0x520fe478ee34844a,  // 1.9826083154044401e87
    0x526fe478ee34844a,  // 1.2688693218588416e89
    0x52d0320568f6ab2e,  // 8.2476505920824707e90
    0x5330b395943e6087,  // 5.4434493907744306e92
    0x53917c0097314d0d,  // 3.6471110918188685e94
    0x53f293c0a0a461de,  // 2.4800355424368306e96
    0x5454074bad313983,  // 1.7112245242814131e98
    0x54b5e7fac56dd6e8,  // 1.1978571669969892e100
    0x55184d5a3305da69,  // 8.5047858856786232e101
    0x557b5705796695b6,  // 6.1234458376886087e103
    0x55df2f423e7902c4,  // 4.4701154615126843e105
    0x564207524c1df599,  // 3.3078854415193864e107
    0x56a5209471331bd0,  // 2.4809140811395398e109
    0x570916b0466cb107,  // 1.8854947016660503e111
    0x576e2f4c14bac4fc,  // 1.4518309202828587e113
    0x57d264d25ca1d00a,  // 1.1324281178206298e115
    0x5836b473aa57bccc,  // 8.9461821307829753e116
    0x589c619094edabff,  // 7.1569457046263802e118
    0x5901f5bd7e3e66d7,  // 5.7971260207473680e120
    0x596702dac9bff3c4,  // 4.7536433370128417e122
    0x59cdd7b3bda4f022,  // 3.9455239697206587e124
    0x5a33958df4743d96,  // 3.3142401345653533e126
    0x5a9a02a088aa61cb,  // 2.8171041143805503e128
    0x5b0179c3dbd279b5,  // 2.4227095383672732e130
    0x5b67c1863ed21d72,  // 2.1077572983795277e132
    0x5bd0550c4b30743e,  // 1.8548264225739844e134
    0x5c36b645188f61a6,  // 1.6507955160908461e136
    0x5c9ff0512a89a152,  // 1.4857159644817615e138
    0x5d06b4d9b43dd8b0,  // 1.3520015276784030e140
    0x5d7051fc798c73bf,  // 1.2438414054641307e142
    0x5dd7b722e0a01831,  // 1.1567725070816416e144
    0x5e416a7d9cf591c4,  // 1.0873661566567431e146
    0x5ea9da1274fc845f,  // 1.0329978488239059e148
    0x5f13638dd7bd6347,  // 9.9167793487094969e149
    0x5f7d62e2fafb0a78,  // 9.6192759682482120e151
    0x5fe67fb5c8283404,  // 9.4268904488832477e153
    0x605166c698cf183b,  // 9.3326215443944153e155
    0x60bb30964ec395dc,  // 9.3326215443944153e157
    0x612574569a265440,  // 9.4259477598383594e159
    0x619118b502d68b23,  // 9.6144667150351266e161
    0x61fb83c3509147ec,  // 9.9029007164861804e163
    0x62665b0eb1760a70,  // 1.0299016745145628e166
    0x62d256b20d92d490,  // 1.0813967582402909e168
    0x633e5f96e67b300e,  // 1.1462805637347084e170
    0x63a963e824aafa2b,  // 1.2265202031961379e172
    0x64156c4bdef04315,  // 1.3246418194518290e174
    0x64823e389bd89920,  // 1.4438595832024936e176
    0x64ef5af14bdc472e,  // 1.5882455415227429e178
    0x655b30dd3fc905ba,  // 1.7629525510902447e180
    0x65c7cac197cfe503,  // 1.9745068572210740e182
    0x663500fee805882d,  // 2.2311927486598136e184
    0x66a2b4e306a4ed48,  // 2.5435597334721876e186
    0x6710ce83f7f82d2f,  // 2.9250936934930157e188
    0x677e764f3171d1e4,  // 3.3931086844518982e190
    0x67ebd824633209db,  // 3.9699371608087209e192
    0x6859ab418b722116,  // 4.6845258497542907e194
    0x68c7dd36efa41ac2,  // 5.5745857612076059e196
    0x69365f6380a9d916,  // 6.6895029134491271e198
    0x69a5262c0fa08f37,  // 8.0942985252734437e200
    0x6a142861fee50880,  // 9.8750442008336014e202
    0x6a835ece2af0162b,  // 1.2146304367025330e205
    0x6af2c3d7b998957a,  // 1.5061417415111409e207
    0x6b625340ab3f01f9,  // 1.8826771768889261e209
    0x6bd209f3a89205f1,  // 2.3721732428800469e211
    0x6c41e5dfc140e1e5,  // 3.0126600184576595e213
    0x6cb1e5dfc140e1e5,  // 3.8562048236258042e215
    0x6d2209ab80c363a9,  // 4.9745042224772874e217
    0x6d9251d22ec67138,  // 6.4668554892204737e219
    0x6e02bfbd1bdf17df,  // 8.4715806908788205e221
    0x6e7355bb04be109e,  // 1.1182486511960043e224
    0x6ee4171452ed7d44,  // 1.4872707060906857e226
    0x6f55082946d09f23,  // 1.9929427461615189e228
    0x6fc62e9b88b007d7,  // 2.6904727073180505e230
    0x70379185413b0855,  // 3.6590428819525487e232
    0x70a939c09fd12eeb,  // 5.0128887482749917e234
    0x711b3243ac4d8695,  // 6.9177864726194885e236
    0x718d88957d1c3026,  // 9.6157231969410890e238
    0x720026b1c06b6a55,  // 1.3462012475717525e241
    0x7271ca9fcdf65321,  // 1.8981437590761710e243
    0x72e3bcc9487d4439,  // 2.6953641378881628e245
    0x73560ce8defbf238,  // 3.8543707171800728e247
    0x73c8ce85fadb707e,  // 5.5502938327393048e249
    0x743c19f3c62c956f,  // 8.0479260574719919e251
    0x74b006cd07056d39,  // 1.1749972043909108e254
    0x752267cf76103b70,  // 1.7272458904546389e256
    0x75954807e082c4b9,  // 2.5563239178728656e258
    0x7608c5d92b583900,  // 3.8089226376305697e260
    0x767d07da7ecb62cc,  // 5.7133839564458546e262
    0x76f11fa1e0c9f746,  // 8.6272097742332404e264
    0x776455903aefd5a3,  // 1.3113358856834525e267
    0x77d84e466672ad5d,  // 2.0063439050956824e269
    0x784d3e2cb341f894,  // 3.0897696138473509e271
    0x78c1b4a51088f182,  // 4.7891429014633939e273
    0x793594292c26e656,  // 7.4710629262828944e275
    0x79aa77ba8027b686,  // 1.1729568794264144e278
    0x7a2055e51b1882a7,  // 1.8532718694937348e280
    0x7a944ab297a8724b,  // 2.9467022724950383e282
    0x7b095d5f3d928ede,  // 4.7147236359920613e284
    0x7b7fe771cb7257b3,  // 7.5907050539472187e286
    0x7bf4307602be5b7f,  // 1.2296942187394494e289
    0x7c69b5b6477e6884,  // 2.0044015765453026e291
    0x7ce07868c5ccfaf4,  // 3.2872185855342962e293
    0x7d553b370efa3b7f,  // 5.4239106661315888e295
    0x7dcb88cb676c8529,  // 9.0036917057784374e297
    0x7e41f63cb077cade,  // 1.5036165148649990e300
    0x7eb7932fa79d3a43,  // 2.5260757449731984e302
    0x7f2f2054eb4d96ec,  // 4.2690680090047053e304
    0x7fa4ab7864418639,  // 7.2574156153079990e306
];

/// The bits of 1/0!, 1/1!, ..., 1/177!, each with its decimal value.
pub const INV_FAC: [u64; 178] = [
    0x3ff0000000000000,  // 1.0000000000000000
    0x3ff0000000000000,  // 1.0000000000000000
    0x3fe0000000000000,  // 5.0000000000000000e-1
    0x3fc5555555555555,  // 1.6666666666666667e-1
    0x3fa5555555555555,  // 4.1666666666666667e-2
    0x3f81111111111111,  // 8.3333333333333333e-3
    0x3f56c16c16c16c17,  // 1.3888888888888889e-3
    0x3f2a01a01a01a01a,  // 1.9841269841269841e-4
    0x3efa01a01a01a01a,  // 2.4801587301587302e-5
    0x3ec71de3a556c734,  // 2.7557319223985891e-6
    0x3e927e4fb7789f5d,  // 2.7557319223985891e-7
    0x3e5ae64567f544e4,  // 2.5052108385441719e-8
    0x3e21eed8eff8d898,  // 2.0876756987868099e-9
    0x3de6124613a86d0a,  // 1.6059043836821615e-10
    0x3da93974a8c07c9d,  // 1.1470745597729725e-11
    0x3d6ae7f3e733b81f,  // 7.6471637318198165e-13
    0x3d2ae7f3e733b81f,  // 4.7794773323873853e-14
    0x3ce952c77030ad4b,  // 2.8114572543455208e-15
    0x3ca6827863b97d97,  // 1.5619206968586226e-16
    0x3c62f49b46814157,  // 8.2206352466243297e-18
    0x3c1e542ba4020225,  // 4.1103176233121649e-19
    0x3bd71b8ef6dcf571,  // 1.9572941063391261e-20
    0x3b90ce396db7f853,  // 8.8967913924505733e-22
    0x3b4761b41316381a,  // 3.8681701706306840e-23
    0x3aff2cf01972f578,  // 1.6117375710961183e-24
    0x3ab3f3ccdd165fa9,  // 6.4469502843844734e-26
    0x3a688e85fc6a4e5a,  // 2.4795962632247975e-27
    0x3a1d1ab1c2dccea3,  // 9.1836898637955461e-29
    0x39d0a18a2635085d,  // 3.2798892370698379e-30
    0x398259f98b4358ae,  // 1.1309962886447717e-31
    0x3933932c5047d60e,  // 3.7699876288159056e-33
    0x38e434d2e783f5bc,  // 1.2161250415535179e-34
    0x389434d2e783f5bc,  // 3.8003907548547436e-36
    0x3843981254dd0d52,  // 1.1516335620771950e-37
    0x37f2710231c0fd7a,  // 3.3871575355211618e-39
    0x37a0dc59c716d91f,  // 9.6775929586318910e-41
    0x374df983290c2ca9,  // 2.6882202662866364e-42
    0x36f9ec8d1c94e85b,  // 7.2654601791530713e-44
    0x36a5d4acb9c0c3ab,  // 1.9119632050402819e-45
    0x3651e99449a4bace,  // 4.9024697565135434e-47
    0x35fca8ed42a12ae3,  // 1.2256174391283858e-48
    0x35a65e61c39d0241,  // 2.9893108271424045e-50
    0x35510af527530de8,  // 7.1174067312914393e-52
    0x34f95db45257e512,  // 1.6552108677421952e-53
    0x34a272b1b03fec6a,  // 3.7618428812322618e-55
    0x344a3cb872220648,  // 8.3596508471828040e-57
    0x33f240804f659510,  // 1.8173154015614791e-58
    0x3398da8e0a127eba,  // 3.8666285139605939e-60
    0x334091b406b6ff26,  // 8.0554760707512373e-62
    0x32e5a42f0dfeb086,  // 1.6439747083165790e-63
    0x328bb36f6e12cd78,  // 3.2879494166331581e-65
    0x323161872bf7b823,  // 6.4469596404571727e-67
    0x31d56457989358c9,  // 1.2397999308571486e-68
    0x3179d4f1058674df,  // 2.3392451525606577e-70
    0x311e9d8f6ed83eaa,  // 4.3319354677049217e-72
    0x30c1d008faac5c50,  // 7.8762463049180395e-74
    0x30645b77f9e98e12,  // 1.4064725544496499e-75
    0x3006db793c887b97,  // 2.4674957095607893e-77
    0x2fa938cc661b03f6,  // 4.2543029475186023e-79
    0x2f4b5bfc17fa97d2,  // 7.2106829618959360e-81
    0x2eed2eeac43e7fd0,  // 1.2017804936493227e-82
    0x2e8e9e56d649f768,  // 1.9701319568021683e-84
    0x2e2f9b3059128bc7,  // 3.1776321883905941e-86
    0x2dd00dcf6a320e1c,  // 5.0438606164930064e-88
    0x2d700dcf6a320e1c,  // 7.8810322132703225e-90
    0x2d0f9d2a2bb5471b,  // 1.2124664943492804e-91
    0x2caea7ead50ce01a,  // 1.8370704459837582e-93
    0x2c4d48849da8f4a3,  // 2.7418961880354600e-95
    0x2beb8f8bdfae136c,  // 4.0322002765227352e-97
    0x2b899046602abcae,  // 5.8437685166996163e-99
    0x2b275f56494ba532,  // 8.3482407381423090e-101
    0x2ac5116e3adb9fb9,  // 1.1758085546679308e-102
    0x2a62ba2917dfaa6c,  // 1.6330674370387928e-104
    0x2a006b1981a48762,  // 2.2370786808750587e-106
    0x299c6639f500ea2d,  // 3.0230792984798090e-108
    0x29383bed30a49edf,  // 4.0307723979730787e-110
    0x28d4685bf3115d5d,  // 5.3036478920698404e-112
    0x2870f653132c5ae6,  // 6.8878544052855070e-114
    0x280bd5dda94f5a18,  // 8.8305825708788551e-116
    0x27a68cda75b82f10,  // 1.1177952621365639e-117
    0x27420a485e2cf273,  // 1.3972440776707049e-119
    0x26dc8206e6fe560c,  // 1.7249926884823518e-121
    0x26764005631debbe,  // 2.1036496201004290e-123
    0x2611281cd42368ab,  // 2.5345176145788301e-125
    0x25aa24be3711628b,  // 3.0172828744986072e-127
    0x2543af3de7343e26,  // 3.5497445582336556e-129
    0x24dd4c44522a0927,  // 4.1276099514344832e-131
    0x24758d700d5cb749,  // 4.7443792545223945e-133
    0x240f595d2ab567b0,  // 5.3913400619572665e-135
    0x23a68b0c583d6a34,  // 6.0576854628733332e-137
    0x234007db446ff080,  // 6.7307616254148146e-139
    0x22d68c751f8f632a,  // 7.3964413466096864e-141
    0x226f5f3ec7bc5d72,  // 8.0396101593583548e-143
    0x220596e0e189e2b7,  // 8.6447421068369406e-145
    0x219d65f64e59b771,  // 9.1965341562095113e-147
    0x2133ce1f3216b6de,  // 9.6805622696942224e-149
    0x20ca6829981e4928,  // 1.0083919030931482e-150
    0x20616c503a23d142,  // 1.0395792815393280e-152
    0x1ff6c1b7275dcd66,  // 1.0607951852442123e-154
    0x1f8d6c3cf76c59b9,  // 1.0715102881254669e-156
    0x1f22d4a1e607e781,  // 1.0715102881254669e-158
    0x1eb7dd50faf84657,  // 1.0609012753717494e-160
    0x1e4df297d187dfcd,  // 1.0400992895801465e-162
    0x1de29bb552f8772d,  // 1.0098051355147053e-164
    0x1d76e7068d8092ae,  // 9.7096647645644744e-167
    0x1d0beb4eb15fc8c1,  // 9.2472997757756899e-169
    0x1ca0db5afbffdea5,  // 8.7238677129959339e-171
    0x1c342a4b5885d350,  // 8.1531473953233027e-173
    0x1bc7e64655f3f0f6,  // 7.5492105512252803e-175
    0x1b5c10c3547ec1b7,  // 6.9258812396562204e-177
    0x1af05439cac2c47d,  // 6.2962556724147458e-179
    0x1a82d470c4e9d270,  // 5.6723024075808521e-181
    0x1a1585132a2fcbee,  // 5.0645557210543322e-183
    0x19a8605e345153be,  // 4.4819077177471967e-185
    0x193b5eba9d8cb7da,  // 3.9314979980238567e-187
    0x18ce76cb424808bd,  // 3.4186939113250928e-189
    0x1860cec86b309210,  // 2.9471499235561145e-191
    0x17f263516a53c4fe,  // 2.5189315585949697e-193
    0x1783f23e47f2bba7,  // 2.1346877615211607e-195
    0x1715746e043f2ccd,  // 1.7938552617824880e-197
    0x16a6e2977bff1eb9,  // 1.4948793848187400e-199
    0x16383584be68daaf,  // 1.2354375081146612e-201
    0x15c9665084a05f25,  // 1.0126536951759518e-203
    0x155a6ea2e16eb219,  // 8.2329568713492014e-206
    0x14eb48ea3306e964,  // 6.6394813478622592e-208
    0x147bf08d841fa750,  // 5.3115850782898073e-210
    0x140c6215db8ddecb,  // 4.2155437129284185e-212
    0x139c9b4c7476cc64,  // 3.3193257582113532e-214
    0x132c9b4c7476cc64,  // 2.5932232486026197e-216
    0x12bc628765ab7579,  // 2.0102505803121083e-218
    0x124bf2bc73dc0564,  // 1.5463466002400833e-220
    0x11db4ee32115844a,  // 1.1804172520916666e-222
    0x116a7b0acabf880a,  // 8.9425549400883835e-225
    0x10f97c30e1ec4d07,  // 6.7237255188634463e-227
    0x108858102067739c,  // 5.0177056110921241e-229
    0x101714eb42c0e6fa,  // 3.7168189711793512e-231
    0x0fa5b955e47951dd,  // 2.7329551258671700e-233
    0x0f344bfe07eacf49,  // 1.9948577561074233e-235
    0x0ec2d3789bbfd2d1,  // 1.4455490986285676e-237
    0x0e515612fa3e74c8,  // 1.0399633803083220e-239
    0x0ddfb355e6d89b07,  // 7.4283098593451574e-242
    0x0d6cc71cf5dfde70,  // 5.2683048647837996e-244
    0x0cf9f0c72cf5109f,  // 3.7100738484392955e-246
    0x0c8738316351833d,  // 2.5944572366708360e-248
    0x0c14a3ba1f64e66f,  // 1.8017064143547472e-250
    0x0ba238416eb158a9,  // 1.2425561478308602e-252
    0x0b2ff26bb792243a,  // 8.5106585467867134e-255
    0x0abbd15891e97bd8,  // 5.7895636372698731e-257
    0x0a480f007e31b737,  // 3.9118673224796440e-259
    0x09d4aaf465893496,  // 2.6254143103890228e-261
    0x0961a2f2af6403ea,  // 1.7502762069260152e-263
    0x08ede67b3a4e033f,  // 1.1591233158450432e-265
    0x08792de108ad7bff,  // 7.6258112884542314e-268
    0x080510a17e0ea0a0,  // 4.9841903846106088e-270
    0x0791822fc930bab3,  // 3.2364872627341615e-272
    0x071cead65b27310e,  // 2.0880562985381687e-274
    0x06a7ba1f78bdb219,  // 1.3384976272680569e-276
    0x06335826b3f7995a,  // 8.5254625940640566e-279
    0x05bf57bd16a1602a,  // 5.3958624013063649e-281
    0x05493b5ca6580d04,  // 3.3936241517650094e-283
    0x04d42f7d51e00a69,  // 2.1210150948531309e-285
    0x04600c508d6a9106,  // 1.3174006800330005e-287
    0x03e95c26cc8279b7,  // 8.1321029631666700e-290
    0x0373ea219be2886a,  // 4.9890202228016380e-292
    0x02ff160effd200a6,  // 3.0420855017083159e-294
    0x02881d86349cb47a,  // 1.8436881828535248e-296
    0x0212984ecf1f6311,  // 1.1106555318394728e-298
    0x019c813d0651d6b7,  // 6.6506319271824716e-301
    0x0125b7ccf89fe08b,  // 3.9587094804657569e-303
    0x00b072f9295f56c1,  // 2.3424316452460100e-305
    0x0038c53af9080a2c,  // 1.3779009677917706e-307
    0x00009455373a92f4,  // 8.0579003964431028e-310
    0x000000dcc6464b46,  // 4.6848258118855249e-312
    0x0000000146b1fa84,  // 2.7079917987777601e-314
    0x0000000001e0a7b1,  // 1.5563171257343449e-316
    0x000000000002bf21,  // 8.8932407184819707e-319
    0x00000000000003ff,  // 5.0529776809556651e-321
    0x0000000000000006,  // 2.8547896502574379e-323
];

/// `n!` as the table gives it, and positive infinity where `n!` is beyond
/// the largest finite binary64 number.
pub open spec fn fac_spec(n: int) -> Binary64 {
    if 0 <= n < 171 {
        b64(FAC[n])
    } else {
        b64(INFINITY_BITS)
    }
}

/// `1/n!` as the table gives it, and positive zero where `1/n!` is below
/// the smallest positive binary64 number.
pub open spec fn inv_fac_spec(n: int) -> Binary64 {
    if 0 <= n < 178 {
        b64(INV_FAC[n])
    } else {
        b64(ZERO)
    }
}

/// Whether `x` is `n!` to within one unit in its last place.
pub open spec fn is_factorial(x: Binary64, n: nat) -> bool {
    -x.ulp() < x.scaled() - factorial(n) * pow2(1074) < x.ulp()
}

/// Whether `x` is `1/n!` to within one unit in its last place: multiplied
/// by `n!`, the distance of `x` from `1/n!` becomes the distance of
/// `x * n!` from 1, and the unit becomes `n!` units.
pub open spec fn is_inverse_factorial(x: Binary64, n: nat) -> bool {
    -(factorial(n) * x.ulp()) < x.scaled() * factorial(n) - pow2(1074) < factorial(n) * x.ulp()
}

/// The factorial of `n`: up to `170!` it is `n!` to within one unit in the
/// last place, and beyond that positive infinity, where `n!` is at least
/// `2^1024`.
pub fn fac(n: i32) -> (r: Binary64)
    requires
        n >= 0,
    ensures
        r == fac_spec(n as int),
        !r.nan() && !r.sign() && !r.zero(),
        r.infinite() <==> n > 170,
        n <= 170 ==> is_factorial(r, n as nat),
        n > 170 ==> factorial(n as nat) * pow2(1074) >= b64(INFINITY_BITS).magnitude(),
{
    proof {
        if n <= 170 {
            lemma_fac_rounded(n as nat);
        } else {
            lemma_fac_overflows(n as nat);
        }
    }
    if n < 171 {
        b64(FAC[n as usize])
    } else {
        b64(INFINITY_BITS)
    }
}

/// The reciprocal of the factorial of `n`: up to `1/177!` it is `1/n!` to
/// within one unit in the last place, and beyond that zero, where `1/n!` is
/// less than half the least positive number. Series that multiply by it
/// take the zero as the sign that all later terms are negligible.
pub fn inv_fac(n: i32) -> (r: Binary64)
    requires
        n >= 0,
    ensures
        r == inv_fac_spec(n as int),
        r.finite() && !r.sign(),
        r.zero() <==> n > 177,
        n <= 177 ==> is_inverse_factorial(r, n as nat),
        n > 177 ==> factorial(n as nat) > 2 * pow2(1074),
{
    proof {
        if n <= 177 {
            lemma_inv_fac_rounded(n as nat);
        } else {
            lemma_inv_fac_underflows(n as nat);
        }
    }
    if n < 178 {
        b64(INV_FAC[n as usize])
    } else {
        b64(ZERO)
    }
}

/// The factorials never decrease, and from `1!` to `171!` (infinity) they
/// grow strictly.
pub proof fn lemma_fac_increases(m: int, n: int)
    requires
        0 <= m <= n,
    ensures
        fac_spec(m).le_spec(fac_spec(n)),
        1 <= m < n <= 171 ==> fac_spec(m).lt_spec(fac_spec(n)),
    decreases n - m,
{
    if m < n {
        lemma_fac_increases(m + 1, n);
        fac_spec(m).lemma_magnitude_order(fac_spec(m + 1));
        fac_spec(m + 1).lemma_magnitude_order(fac_spec(m));
    }
}

/// The reciprocals never increase, and from `1/1!` to `1/178!` (zero) they
/// fall strictly.
pub proof fn lemma_inv_fac_decreases(m: int, n: int)
    requires
        0 <= m <= n,
    ensures
        inv_fac_spec(n).le_spec(inv_fac_spec(m)),
        1 <= m < n <= 178 ==> inv_fac_spec(n).lt_spec(inv_fac_spec(m)),
    decreases n - m,
{
    if m < n {
        lemma_inv_fac_decreases(m + 1, n);
        inv_fac_spec(m).lemma_magnitude_order(inv_fac_spec(m + 1));
        inv_fac_spec(m + 1).lemma_magnitude_order(inv_fac_spec(m));
    }
}

/// The product `1 * 2 * ... * n`.
pub open spec fn factorial(n: nat) -> nat
    decreases n,
{
    if n == 0 {
        1
    } else {
        n * factorial((n - 1) as nat)
    }
}

/// The factorials up to `22!`, the last that binary64 holds exactly.
pub proof fn lemma_factorial_values()
    ensures
        factorial(0) == 1,
        factorial(1) == 1,
        factorial(2) == 2,
        factorial(3) == 6,
        factorial(4) == 24,
        factorial(5) == 120,
        factorial(6) == 720,
        factorial(7) == 5040,
        factorial(8) == 40320,
        factorial(9) == 362880,
        factorial(10) == 3628800,
        factorial(11) == 39916800,
        factorial(12) == 479001600,
        factorial(13) == 6227020800,
        factorial(14) == 87178291200,
        factorial(15) == 1307674368000,
        factorial(16) == 20922789888000,
        factorial(17) == 355687428096000,
        factorial(18) == 6402373705728000,
        factorial(19) == 121645100408832000,
        factorial(20) == 2432902008176640000,
        factorial(21) == 51090942171709440000,
        factorial(22) == 1124000727777607680000,
{
    reveal_with_fuel(factorial, 24);
}

/// A positive normal number `x` with the significand `sig` is the integer
/// `v` if shifting one of the two by the distance of the exponent of `x`
/// from that of `2^52` gives the other: `sig * p == v` above it and
/// `sig == v * p` below it, where `p` is the power of two of that distance.
pub proof fn lemma_integer_value(x: Binary64, v: nat, sig: nat, p: nat)
    requires
        !x.sign(),
        1 <= x.exponent() <= 2046,
        sig == HIDDEN_BIT + x.fraction(),
        x.exponent() >= 1075 ==> p == pow2((x.exponent() - 1075) as nat) && sig * p == v,
        x.exponent() < 1075 ==> p == pow2((1075 - x.exponent()) as nat) && sig == v * p,
    ensures
        x.scaled() == v * pow2(1074),
{
    let e = x.exponent();
    let unit = pow2(1074);
    let scale = pow2((e - 1) as nat);
    if e >= 1075 {
        lemma_pow2_adds((e - 1075) as nat, 1074);
        assert(sig * (p * unit) == (sig * p) * unit) by (nonlinear_arith);
    } else {
        lemma_pow2_adds((1075 - e) as nat, (e - 1) as nat);
        assert(v * (p * scale) == (v * p) * scale) by (nonlinear_arith);
    }
}

/// Up to `22!` the table holds the factorials themselves: the value of
/// `fac(n)` is exactly `n!`. From `23!` on a factorial has more than 53
/// significant bits, and the table holds a rounded value.
pub proof fn lemma_fac_exact(n: nat)
    requires
        n <= 22,
    ensures
        fac_spec(n as int).scaled() == factorial(n) * pow2(1074),
{
    lemma_factorial_values();
    lemma2_to64();
    lemma2_to64_rest();
    if n == 0 {
        lemma_integer_value(fac_spec(0), 1, 0x10000000000000, 0x10000000000000);
    } else if n == 1 {
        lemma_integer_value(fac_spec(1), 1, 0x10000000000000, 0x10000000000000);
    } else if n == 2 {
        lemma_integer_value(fac_spec(2), 2, 0x10000000000000, 0x8000000000000);
    } else if n == 3 {
        lemma_integer_value(fac_spec(3), 6, 0x18000000000000, 0x4000000000000);
    } else if n == 4 {
        lemma_integer_value(fac_spec(4), 24, 0x18000000000000, 0x1000000000000);
    } else if n == 5 {
        lemma_integer_value(fac_spec(5), 120, 0x1e000000000000, 0x400000000000);
    } else if n == 6 {
        lemma_integer_value(fac_spec(6), 720, 0x16800000000000, 0x80000000000);
    } else if n == 7 {
        lemma_integer_value(fac_spec(7), 5040, 0x13b00000000000, 0x10000000000);
    } else if n == 8 {
        lemma_integer_value(fac_spec(8), 40320, 0x13b00000000000, 0x2000000000);
    } else if n == 9 {
        lemma_integer_value(fac_spec(9), 362880, 0x16260000000000, 0x400000000);
    } else if n == 10 {
        lemma_integer_value(fac_spec(10), 3628800, 0x1baf8000000000, 0x80000000);
    } else if n == 11 {
        lemma_integer_value(fac_spec(11), 39916800, 0x1308a800000000, 0x8000000);
    } else if n == 12 {
        lemma_integer_value(fac_spec(12), 479001600, 0x1c8cfc00000000, 0x1000000);
    } else if n == 13 {
        lemma_integer_value(fac_spec(13), 6227020800, 0x17328cc0000000, 0x100000);
    } else if n == 14 {
        lemma_integer_value(fac_spec(14), 87178291200, 0x144c3b28000000, 0x10000);
    } else if n == 15 {
        lemma_integer_value(fac_spec(15), 1307674368000, 0x13077775800000, 0x1000);
    } else if n == 16 {
        lemma_integer_value(fac_spec(16), 20922789888000, 0x13077775800000, 0x100);
    } else if n == 17 {
        lemma_integer_value(fac_spec(17), 355687428096000, 0x1437eeecd80000, 0x10);
    } else if n == 18 {
        lemma_integer_value(fac_spec(18), 6402373705728000, 0x16beecca730000, 0x1);
    } else if n == 19 {
        lemma_integer_value(fac_spec(19), 121645100408832000, 0x1b02b930689000, 0x10);
    } else if n == 20 {
        lemma_integer_value(fac_spec(20), 2432902008176640000, 0x10e1b3be415a00, 0x200);
    } else if n == 21 {
        lemma_integer_value(fac_spec(21), 51090942171709440000, 0x16283be9b5c620, 0x2000);
    } else {
        lemma_integer_value(fac_spec(22), 1124000727777607680000, 0x1e77526159f06c, 0x20000);
    }
}

/// The first entries are exact: `0! = 1! = 1/0! = 1/1! = 1` and
/// `1/2! = 1/2`.
pub proof fn lemma_first_factorials()
    ensures
        fac_spec(0) == b64(ONE),
        fac_spec(1) == b64(ONE),
        inv_fac_spec(0) == b64(ONE),
        inv_fac_spec(1) == b64(ONE),
        inv_fac_spec(2) == b64(HALF),
{
}

} // verus!
