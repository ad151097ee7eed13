//! The sRGB transfer curve at integer bit depths.
//!
//! Each table holds the curve at the 256 codes of an 8-bit channel, rounded
//! to the nearest step of the table's width. 8-bit channels read the tables
//! directly; 16-bit channels interpolate between the entries, whose codes sit
//! at the multiples of 257.
use vstd::prelude::*;

verus! {

/// Linear light of each sRGB-encoded 8-bit code, in 8-bit steps.
pub const SRGB_DECODE8: [u8; 256] = [
    0, 0, 0, 0, 0, 0, 0, 1, 1, 1, 1, 1, 1, 1, 1, 1,
    1, 1, 2, 2, 2, 2, 2, 2, 2, 2, 3, 3, 3, 3, 3, 3,
    4, 4, 4, 4, 4, 5, 5, 5, 5, 6, 6, 6, 6, 7, 7, 7,
    8, 8, 8, 8, 9, 9, 9, 10, 10, 10, 11, 11, 12, 12, 12, 13,
    13, 13, 14, 14, 15, 15, 16, 16, 17, 17, 17, 18, 18, 19, 19, 20,
    20, 21, 22, 22, 23, 23, 24, 24, 25, 25, 26, 27, 27, 28, 29, 29,
    30, 30, 31, 32, 32, 33, 34, 35, 35, 36, 37, 37, 38, 39, 40, 41,
    41, 42, 43, 44, 45, 45, 46, 47, 48, 49, 50, 51, 51, 52, 53, 54,
    55, 56, 57, 58, 59, 60, 61, 62, 63, 64, 65, 66, 67, 68, 69, 70,
    71, 72, 73, 74, 76, 77, 78, 79, 80, 81, 82, 84, 85, 86, 87, 88,
    90, 91, 92, 93, 95, 96, 97, 99, 100, 101, 103, 104, 105, 107, 108, 109,
    111, 112, 114, 115, 116, 118, 119, 121, 122, 124, 125, 127, 128, 130, 131, 133,
    134, 136, 138, 139, 141, 142, 144, 146, 147, 149, 151, 152, 154, 156, 157, 159,
    161, 163, 164, 166, 168, 170, 171, 173, 175, 177, 179, 181, 183, 184, 186, 188,
    190, 192, 194, 196, 198, 200, 202, 204, 206, 208, 210, 212, 214, 216, 218, 220,
    222, 224, 226, 229, 231, 233, 235, 237, 239, 242, 244, 246, 248, 250, 253, 255,
];

/// sRGB encoding of each linear 8-bit code, in 8-bit steps.
pub const SRGB_ENCODE8: [u8; 256] = [
    0, 13, 22, 28, 34, 38, 42, 46, 50, 53, 56, 59, 61, 64, 66, 69,
    71, 73, 75, 77, 79, 81, 83, 85, 86, 88, 90, 92, 93, 95, 96, 98,
    99, 101, 102, 104, 105, 106, 108, 109, 110, 112, 113, 114, 115, 117, 118, 119,
    120, 121, 122, 124, 125, 126, 127, 128, 129, 130, 131, 132, 133, 134, 135, 136,
    137, 138, 139, 140, 141, 142, 143, 144, 145, 146, 147, 148, 148, 149, 150, 151,
    152, 153, 154, 155, 155, 156, 157, 158, 159, 159, 160, 161, 162, 163, 163, 164,
    165, 166, 167, 167, 168, 169, 170, 170, 171, 172, 173, 173, 174, 175, 175, 176,
    177, 178, 178, 179, 180, 180, 181, 182, 182, 183, 184, 185, 185, 186, 187, 187,
    188, 189, 189, 190, 190, 191, 192, 192, 193, 194, 194, 195, 196, 196, 197, 197,
    198, 199, 199, 200, 200, 201, 202, 202, 203, 203, 204, 205, 205, 206, 206, 207,
    208, 208, 209, 209, 210, 210, 211, 212, 212, 213, 213, 214, 214, 215, 215, 216,
    216, 217, 218, 218, 219, 219, 220, 220, 221, 221, 222, 222, 223, 223, 224, 224,
    225, 226, 226, 227, 227, 228, 228, 229, 229, 230, 230, 231, 231, 232, 232, 233,
    233, 234, 234, 235, 235, 236, 236, 237, 237, 238, 238, 238, 239, 239, 240, 240,
    241, 241, 242, 242, 243, 243, 244, 244, 245, 245, 246, 246, 246, 247, 247, 248,
    248, 249, 249, 250, 250, 251, 251, 251, 252, 252, 253, 253, 254, 254, 255, 255,
];

/// Linear light of each sRGB-encoded 8-bit code, in 16-bit steps.
pub const SRGB_DECODE16: [u16; 256] = [
    0, 20, 40, 60, 80, 99, 119, 139, 159, 179, 199, 219, 241, 264, 288, 313,
    340, 367, 396, 427, 458, 491, 526, 562, 599, 637, 677, 718, 761, 805, 851, 898,
    947, 997, 1048, 1101, 1156, 1212, 1270, 1330, 1391, 1453, 1517, 1583, 1651, 1720, 1790, 1863,
    1937, 2013, 2090, 2170, 2250, 2333, 2418, 2504, 2592, 2681, 2773, 2866, 2961, 3058, 3157, 3258,
    3360, 3464, 3570, 3678, 3788, 3900, 4014, 4129, 4247, 4366, 4488, 4611, 4736, 4864, 4993, 5124,
    5257, 5392, 5530, 5669, 5810, 5953, 6099, 6246, 6395, 6547, 6700, 6856, 7014, 7174, 7335, 7500,
    7666, 7834, 8004, 8177, 8352, 8528, 8708, 8889, 9072, 9258, 9445, 9635, 9828, 10022, 10219, 10417,
    10619, 10822, 11028, 11235, 11446, 11658, 11873, 12090, 12309, 12530, 12754, 12980, 13209, 13440, 13673, 13909,
    14146, 14387, 14629, 14874, 15122, 15371, 15623, 15878, 16135, 16394, 16656, 16920, 17187, 17456, 17727, 18001,
    18277, 18556, 18837, 19121, 19407, 19696, 19987, 20281, 20577, 20876, 21177, 21481, 21787, 22096, 22407, 22721,
    23038, 23357, 23678, 24002, 24329, 24658, 24990, 25325, 25662, 26001, 26344, 26688, 27036, 27386, 27739, 28094,
    28452, 28813, 29176, 29542, 29911, 30282, 30656, 31033, 31412, 31794, 32179, 32567, 32957, 33350, 33745, 34143,
    34544, 34948, 35355, 35764, 36176, 36591, 37008, 37429, 37852, 38278, 38706, 39138, 39572, 40009, 40449, 40891,
    41337, 41785, 42236, 42690, 43147, 43606, 44069, 44534, 45002, 45473, 45947, 46423, 46903, 47385, 47871, 48359,
    48850, 49344, 49841, 50341, 50844, 51349, 51858, 52369, 52884, 53401, 53921, 54445, 54971, 55500, 56032, 56567,
    57105, 57646, 58190, 58737, 59287, 59840, 60396, 60955, 61517, 62082, 62650, 63221, 63795, 64372, 64952, 65535,
];

/// sRGB encoding of each linear 8-bit code, in 16-bit steps.
pub const SRGB_ENCODE16: [u16; 256] = [
    0, 3266, 5567, 7255, 8638, 9831, 10891, 11853, 12737, 13559, 14329, 15056, 15745, 16401, 17028, 17630,
    18209, 18767, 19306, 19828, 20334, 20826, 21304, 21769, 22223, 22667, 23099, 23523, 23937, 24342, 24740, 25130,
    25513, 25888, 26257, 26620, 26977, 27328, 27674, 28014, 28350, 28680, 29006, 29327, 29644, 29957, 30266, 30571,
    30872, 31169, 31463, 31754, 32041, 32325, 32606, 32884, 33159, 33431, 33700, 33967, 34231, 34492, 34751, 35008,
    35262, 35514, 35764, 36011, 36256, 36500, 36741, 36980, 37217, 37452, 37686, 37917, 38147, 38375, 38602, 38826,
    39049, 39270, 39490, 39708, 39925, 40140, 40354, 40566, 40777, 40987, 41195, 41401, 41607, 41811, 42014, 42215,
    42416, 42615, 42813, 43009, 43205, 43400, 43593, 43785, 43976, 44166, 44355, 44543, 44730, 44916, 45101, 45285,
    45468, 45651, 45832, 46012, 46191, 46370, 46547, 46724, 46900, 47075, 47249, 47422, 47594, 47766, 47937, 48107,
    48276, 48445, 48612, 48779, 48946, 49111, 49276, 49440, 49603, 49766, 49928, 50089, 50250, 50410, 50569, 50728,
    50886, 51043, 51200, 51356, 51511, 51666, 51821, 51974, 52127, 52280, 52432, 52583, 52734, 52884, 53034, 53183,
    53331, 53479, 53627, 53774, 53920, 54066, 54211, 54356, 54500, 54644, 54788, 54931, 55073, 55215, 55356, 55497,
    55638, 55778, 55917, 56056, 56195, 56333, 56471, 56608, 56745, 56882, 57018, 57153, 57288, 57423, 57558, 57691,
    57825, 57958, 58091, 58223, 58355, 58487, 58618, 58748, 58879, 59009, 59138, 59268, 59396, 59525, 59653, 59781,
    59908, 60035, 60162, 60288, 60414, 60540, 60665, 60790, 60915, 61039, 61163, 61287, 61410, 61533, 61656, 61778,
    61900, 62022, 62143, 62264, 62385, 62505, 62625, 62745, 62865, 62984, 63103, 63222, 63340, 63458, 63576, 63693,
    63810, 63927, 64044, 64160, 64276, 64392, 64508, 64623, 64738, 64852, 64967, 65081, 65195, 65309, 65422, 65535,
];

/// Entry `v` of an 8-bit table.
pub open spec fn lookup8(table: [u8; 256], v: int) -> int {
    table@[v] as int
}

/// A 16-bit code `v` read off a table with entries at the multiples of 257,
/// interpolating linearly between the two entries round it.
pub open spec fn interpolate16(table: [u16; 256], v: int) -> int {
    let k = v / 257;
    let t = v % 257;
    if k >= 255 {
        table@[255] as int
    } else {
        table@[k] as int + ((table@[k + 1] as int - table@[k] as int) * t) / 257
    }
}

/// Whether the entries of a 16-bit table never decrease.
pub open spec fn nondecreasing16(table: [u16; 256]) -> bool {
    forall|i: int| 0 <= i < 255 ==> table@[i] <= #[trigger] table@[i + 1]
}

/// Reads entry `v` of an 8-bit table.
pub fn read8(table: &[u8; 256], v: u8) -> (r: u8)
    ensures
        r as int == lookup8(*table, v as int),
{
    table[v as usize]
}

/// Reads a 16-bit code off a 16-bit table by interpolation.
pub fn read16(table: &[u16; 256], v: u16) -> (r: u16)
    requires
        nondecreasing16(*table),
    ensures
        r as int == interpolate16(*table, v as int),
{
    let k: u16 = v / 257;
    let t: u16 = v % 257;
    if k >= 255 {
        table[255]
    } else {
        let lo: u16 = table[k as usize];
        let hi: u16 = table[k as usize + 1];
        assert(lo <= hi);
        let step: u32 = (hi - lo) as u32;
        proof {
            assert(step * (t as u32) <= 65535 * 256) by (nonlinear_arith)
                requires
                    step <= 65535,
                    t <= 256,
            ;
            assert((step * (t as u32)) / 257 <= step) by (nonlinear_arith)
                requires
                    t <= 256,
            ;
        }
        let d: u32 = (step * (t as u32)) / 257;
        (lo as u32 + d) as u16
    }
}

} // verus!
