//! The two lookup tables that turn an escape-iteration count into a colour.
//!
//! Both tables are made of three waves of 1024 samples. The hue-cycling table
//! takes one wave for each colour channel; the luminance-only table takes the
//! first wave for all three.

use vstd::prelude::*;

verus! {

/// Number of entries in each lookup table.
pub const TABLE_SIZE: usize = 1024;

/// Sample `i` is `sin(TAU * 23 * i / 1024) * 128 + 128`, clamped to `0..=255`
/// and truncated.
pub const RED: [u8; 1024] = [
    128, 146, 163, 180, 196, 211, 223, 234, 243, 250, 254, 255, 255, 251, 245, 237,
    226, 214, 200, 184, 168, 150, 132, 114, 96, 79, 63, 48, 35, 23, 14, 7,
    2, 0, 0, 3, 8, 16, 26, 38, 51, 66, 83, 100, 118, 136, 154, 171,
    188, 203, 217, 229, 239, 247, 252, 255, 255, 253, 249, 241, 232, 221, 207, 193,
    176, 159, 142, 124, 106, 88, 71, 56, 42, 29, 19, 10, 4, 1, 0, 1,
    5, 11, 20, 31, 44, 58, 74, 91, 109, 127, 145, 162, 179, 195, 210, 223,
    234, 243, 250, 254, 255, 255, 251, 245, 237, 227, 215, 201, 185, 168, 151, 133,
    115, 97, 80, 64, 49, 35, 24, 14, 7, 2, 0, 0, 3, 8, 15, 25,
    37, 51, 66, 82, 99, 117, 135, 153, 171, 187, 202, 216, 228, 238, 246, 252,
    255, 255, 253, 249, 242, 233, 221, 208, 193, 177, 160, 142, 124, 106, 89, 72,
    56, 42, 30, 19, 10, 4, 1, 0, 1, 5, 11, 20, 31, 43, 58, 73,
    90, 108, 126, 144, 162, 179, 195, 209, 222, 233, 243, 249, 254, 255, 255, 251,
    246, 238, 227, 215, 201, 186, 169, 152, 134, 116, 98, 81, 64, 49, 36, 24,
    15, 7, 2, 0, 0, 2, 8, 15, 25, 36, 50, 65, 81, 99, 117, 135,
    152, 170, 186, 202, 216, 228, 238, 246, 252, 255, 255, 253, 249, 242, 233, 222,
    209, 194, 178, 161, 143, 125, 107, 90, 73, 57, 43, 30, 19, 11, 5, 1,
    0, 1, 5, 11, 19, 30, 43, 57, 73, 90, 107, 125, 143, 161, 178, 194,
    209, 222, 233, 242, 249, 253, 255, 255, 252, 246, 238, 228, 216, 202, 186, 170,
    152, 135, 117, 99, 81, 65, 50, 36, 25, 15, 8, 2, 0, 0, 2, 7,
    15, 24, 36, 49, 64, 81, 98, 116, 134, 152, 169, 186, 201, 215, 227, 238,
    246, 251, 255, 255, 254, 249, 243, 233, 222, 209, 195, 179, 162, 144, 126, 108,
    90, 73, 58, 43, 31, 20, 11, 5, 1, 0, 1, 4, 10, 19, 30, 42,
    56, 72, 89, 106, 124, 142, 160, 177, 193, 208, 221, 233, 242, 249, 253, 255,
    255, 252, 246, 238, 228, 216, 202, 187, 171, 153, 135, 117, 99, 82, 66, 51,
    37, 25, 15, 8, 3, 0, 0, 2, 7, 14, 24, 35, 49, 64, 80, 97,
    115, 133, 151, 168, 185, 201, 215, 227, 237, 245, 251, 255, 255, 254, 250, 243,
    234, 223, 210, 195, 179, 162, 145, 127, 109, 91, 74, 58, 44, 31, 20, 11,
    5, 1, 0, 1, 4, 10, 19, 29, 42, 56, 71, 88, 106, 124, 142, 159,
    176, 193, 207, 221, 232, 241, 249, 253, 255, 255, 252, 247, 239, 229, 217, 203,
    188, 171, 154, 136, 118, 100, 83, 66, 51, 38, 26, 16, 8, 3, 0, 0,
    2, 7, 14, 23, 35, 48, 63, 79, 96, 114, 132, 150, 168, 184, 200, 214,
    226, 237, 245, 251, 255, 255, 254, 250, 243, 234, 223, 211, 196, 180, 163, 146,
    128, 109, 92, 75, 59, 44, 32, 21, 12, 5, 1, 0, 0, 4, 10, 18,
    29, 41, 55, 71, 87, 105, 123, 141, 159, 176, 192, 207, 220, 232, 241, 248,
    253, 255, 255, 252, 247, 239, 229, 217, 204, 189, 172, 155, 137, 119, 101, 84,
    67, 52, 38, 26, 16, 8, 3, 0, 0, 2, 6, 14, 23, 34, 48, 62,
    79, 96, 113, 131, 149, 167, 184, 199, 213, 226, 236, 245, 251, 254, 255, 254,
    250, 244, 235, 224, 211, 197, 181, 164, 146, 128, 110, 93, 76, 60, 45, 32,
    21, 12, 5, 1, 0, 0, 4, 10, 18, 28, 40, 54, 70, 87, 104, 122,
    140, 158, 175, 191, 206, 220, 231, 241, 248, 253, 255, 255, 252, 247, 240, 230,
    218, 204, 189, 173, 156, 138, 120, 102, 84, 68, 53, 39, 27, 17, 9, 3,
    0, 0, 2, 6, 13, 22, 34, 47, 62, 78, 95, 113, 131, 149, 166, 183,
    199, 213, 225, 236, 245, 251, 254, 255, 254, 250, 244, 235, 224, 212, 197, 182,
    165, 147, 129, 111, 93, 76, 60, 46, 33, 22, 12, 6, 1, 0, 0, 4,
    9, 17, 28, 40, 54, 69, 86, 103, 121, 139, 157, 174, 191, 206, 219, 231,
    240, 248, 253, 255, 255, 253, 247, 240, 230, 219, 205, 190, 174, 156, 138, 120,
    103, 85, 69, 53, 39, 27, 17, 9, 3, 0, 0, 2, 6, 13, 22, 33,
    46, 61, 77, 94, 112, 130, 148, 165, 182, 198, 212, 225, 236, 244, 250, 254,
    255, 254, 250, 244, 236, 225, 212, 198, 182, 165, 148, 130, 112, 94, 77, 61,
    46, 33, 22, 13, 6, 2, 0, 0, 3, 9, 17, 27, 39, 53, 69, 85,
    103, 120, 138, 156, 174, 190, 205, 219, 230, 240, 247, 253, 255, 255, 253, 248,
    240, 231, 219, 206, 191, 174, 157, 139, 121, 103, 86, 69, 54, 40, 28, 17,
    9, 4, 0, 0, 1, 6, 12, 22, 33, 46, 60, 76, 93, 111, 129, 147,
    165, 182, 197, 212, 224, 235, 244, 250, 254, 255, 254, 251, 245, 236, 225, 213,
    199, 183, 166, 149, 131, 113, 95, 78, 62, 47, 34, 22, 13, 6, 2, 0,
    0, 3, 9, 17, 27, 39, 53, 68, 84, 102, 120, 138, 156, 173, 189, 204,
    218, 230, 240, 247, 252, 255, 255, 253, 248, 241, 231, 220, 206, 191, 175, 158,
    140, 122, 104, 87, 70, 54, 40, 28, 18, 10, 4, 0, 0, 1, 5, 12,
    21, 32, 45, 60, 76, 93, 110, 128, 146, 164, 181, 197, 211, 224, 235, 244,
    250, 254, 255, 254, 251, 245, 236, 226, 213, 199, 184, 167, 149, 131, 113, 96,
    79, 62, 48, 34, 23, 14, 6, 2, 0, 0, 3, 8, 16, 26, 38, 52,
    67, 84, 101, 119, 137, 155, 172, 189, 204, 217, 229, 239, 247, 252, 255, 255,
    253, 248, 241, 232, 220, 207, 192, 176, 159, 141, 123, 105, 87, 71, 55, 41,
    29, 18, 10, 4, 0, 0, 1, 5, 12, 21, 32, 44, 59, 75, 92, 109,
];

/// Sample `i` is `sin(TAU * 17 * i / 1024 + 2) * 128 + 128`, clamped to
/// `0..=255` and truncated.
pub const GREEN: [u8; 1024] = [
    244, 238, 230, 222, 212, 202, 191, 179, 166, 153, 140, 127, 113, 100, 87, 75,
    63, 52, 42, 32, 24, 17, 10, 6, 2, 0, 0, 0, 2, 6, 10, 16,
    24, 32, 42, 52, 63, 75, 87, 100, 113, 127, 140, 153, 166, 179, 191, 202,
    212, 222, 230, 238, 244, 249, 252, 255, 255, 255, 253, 250, 245, 239, 232, 224,
    215, 204, 193, 182, 169, 156, 143, 130, 117, 103, 90, 78, 66, 54, 44, 34,
    26, 18, 12, 7, 3, 1, 0, 0, 2, 5, 9, 15, 22, 30, 39, 49,
    60, 72, 84, 97, 110, 124, 137, 150, 163, 176, 188, 199, 210, 220, 228, 236,
    243, 248, 252, 254, 255, 255, 254, 251, 246, 241, 234, 226, 217, 207, 196, 184,
    172, 159, 146, 133, 120, 106, 93, 81, 69, 57, 46, 36, 28, 20, 13, 8,
    4, 1, 0, 0, 1, 4, 8, 14, 20, 28, 37, 47, 58, 69, 81, 94,
    107, 120, 134, 147, 160, 173, 185, 197, 207, 217, 226, 234, 241, 247, 251, 254,
    255, 255, 254, 251, 247, 242, 236, 228, 219, 209, 199, 187, 175, 162, 149, 136,
    123, 110, 96, 84, 71, 60, 49, 39, 30, 22, 15, 9, 5, 2, 0, 0,
    1, 3, 7, 12, 19, 26, 35, 44, 55, 66, 78, 91, 104, 117, 131, 144,
    157, 170, 182, 194, 205, 215, 224, 233, 240, 245, 250, 253, 255, 255, 255, 252,
    249, 244, 237, 230, 221, 212, 201, 190, 178, 165, 153, 139, 126, 113, 99, 87,
    74, 62, 51, 41, 32, 23, 16, 10, 5, 2, 0, 0, 0, 2, 6, 11,
    17, 24, 33, 42, 52, 64, 76, 88, 101, 114, 127, 141, 154, 167, 179, 191,
    202, 213, 222, 231, 238, 244, 249, 253, 255, 255, 255, 253, 250, 245, 239, 232,
    223, 214, 204, 193, 181, 168, 156, 142, 129, 116, 103, 90, 77, 65, 54, 43,
    34, 25, 18, 11, 6, 3, 0, 0, 0, 2, 5, 10, 15, 22, 31, 40,
    50, 61, 73, 85, 98, 111, 124, 138, 151, 164, 176, 188, 200, 210, 220, 229,
    236, 243, 248, 252, 254, 255, 255, 253, 250, 246, 240, 234, 225, 216, 206, 195,
    184, 171, 159, 146, 132, 119, 106, 93, 80, 68, 56, 46, 36, 27, 19, 13,
    8, 4, 1, 0, 0, 1, 4, 8, 14, 21, 29, 38, 47, 58, 70, 82,
    95, 108, 121, 135, 148, 161, 174, 186, 197, 208, 218, 227, 235, 241, 247, 251,
    254, 255, 255, 254, 251, 247, 242, 235, 227, 219, 209, 198, 186, 174, 162, 149,
    135, 122, 109, 96, 83, 71, 59, 48, 38, 29, 21, 14, 9, 4, 1, 0,
    0, 1, 3, 7, 12, 19, 27, 35, 45, 56, 67, 79, 92, 105, 118, 131,
    145, 158, 171, 183, 195, 206, 216, 225, 233, 240, 246, 250, 253, 255, 255, 254,
    252, 248, 243, 237, 229, 221, 211, 201, 189, 177, 165, 152, 139, 125, 112, 99,
    86, 74, 62, 51, 40, 31, 23, 16, 10, 5, 2, 0, 0, 0, 3, 6,
    11, 17, 25, 33, 43, 53, 64, 76, 89, 102, 115, 128, 142, 155, 168, 180,
    192, 203, 213, 223, 231, 238, 245, 249, 253, 255, 255, 255, 253, 249, 245, 239,
    231, 223, 213, 203, 192, 180, 168, 155, 142, 128, 115, 102, 89, 76, 64, 53,
    43, 33, 25, 17, 11, 6, 3, 0, 0, 0, 2, 5, 10, 16, 23, 31,
    40, 51, 62, 73, 86, 99, 112, 125, 138, 152, 165, 177, 189, 201, 211, 221,
    229, 237, 243, 248, 252, 254, 255, 255, 253, 250, 246, 240, 233, 225, 216, 206,
    195, 183, 171, 158, 145, 131, 118, 105, 92, 79, 67, 56, 45, 35, 27, 19,
    12, 7, 3, 1, 0, 0, 1, 4, 9, 14, 21, 29, 38, 48, 59, 71,
    83, 96, 109, 122, 135, 149, 162, 174, 186, 198, 209, 219, 227, 235, 242, 247,
    251, 254, 255, 255, 254, 251, 247, 241, 235, 227, 218, 208, 197, 186, 174, 161,
    148, 135, 121, 108, 95, 82, 70, 58, 48, 38, 29, 21, 14, 8, 4, 1,
    0, 0, 1, 4, 8, 13, 19, 27, 36, 46, 56, 68, 80, 93, 106, 119,
    132, 145, 159, 171, 184, 195, 206, 216, 225, 233, 240, 246, 250, 253, 255, 255,
    254, 252, 248, 243, 236, 229, 220, 211, 200, 189, 177, 164, 151, 138, 124, 111,
    98, 85, 73, 61, 50, 40, 31, 22, 15, 10, 5, 2, 0, 0, 0, 3,
    6, 11, 18, 25, 34, 43, 54, 65, 77, 90, 102, 116, 129, 142, 156, 168,
    181, 193, 204, 214, 223, 232, 239, 245, 250, 253, 255, 255, 255, 253, 249, 244,
    238, 231, 222, 213, 203, 191, 179, 167, 154, 141, 128, 114, 101, 88, 76, 64,
    53, 42, 33, 24, 17, 11, 6, 2, 0, 0, 0, 2, 5, 10, 16, 23,
    32, 41, 51, 62, 74, 87, 99, 113, 126, 139, 152, 165, 178, 190, 201, 212,
    221, 230, 237, 244, 249, 252, 255, 255, 255, 253, 250, 245, 240, 233, 224, 215,
    205, 194, 182, 170, 157, 144, 131, 117, 104, 91, 79, 67, 55, 45, 35, 26,
    19, 12, 7, 3, 1, 0, 0, 2, 5, 9, 15, 21, 30, 39, 49, 60,
    71, 84, 96, 109, 123, 136, 149, 162, 175, 187, 199, 209, 219, 228, 236, 242,
    247, 251, 254, 255, 255, 254, 251, 247, 241, 234, 226, 217, 208, 197, 185, 173,
    160, 147, 134, 120, 107, 94, 81, 69, 58, 47, 37, 28, 20, 14, 8, 4,
    1, 0, 0, 1, 4, 8, 13, 20, 28, 36, 46, 57, 69, 81, 93, 106,
    120, 133, 146, 159, 172, 184, 196, 207, 217, 226, 234, 241, 246, 251, 254, 255,
    255, 254, 252, 248, 243, 236, 228, 220, 210, 199, 188, 176, 163, 150, 137, 124,
    110, 97, 84, 72, 60, 49, 39, 30, 22, 15, 9, 5, 2, 0, 0, 1,
    3, 7, 12, 18, 26, 34, 44, 54, 66, 78, 90, 103, 116, 130, 143, 156,
    169, 181, 193, 204, 215, 224, 232, 239, 245, 250, 253, 255, 255, 255, 252, 249,
];

/// Sample `i` is `sin(TAU * 17 * i / 1024 + 3) * 128 + 128`, clamped to
/// `0..=255` and truncated.
pub const BLUE: [u8; 1024] = [
    146, 132, 119, 106, 93, 80, 68, 56, 46, 36, 27, 19, 13, 8, 4, 1,
    0, 0, 1, 4, 8, 14, 21, 29, 38, 47, 58, 70, 82, 95, 108, 121,
    135, 148, 161, 174, 186, 197, 208, 218, 227, 235, 241, 247, 251, 254, 255, 255,
    254, 251, 247, 242, 235, 227, 219, 209, 198, 187, 174, 162, 149, 135, 122, 109,
    96, 83, 71, 59, 48, 38, 29, 21, 14, 9, 4, 1, 0, 0, 1, 3,
    7, 12, 19, 27, 35, 45, 56, 67, 79, 92, 105, 118, 131, 145, 158, 171,
    183, 195, 206, 216, 225, 233, 240, 246, 250, 253, 255, 255, 254, 252, 248, 243,
    237, 229, 221, 211, 201, 189, 177, 165, 152, 139, 125, 112, 99, 86, 74, 62,
    51, 40, 31, 23, 16, 10, 5, 2, 0, 0, 0, 3, 6, 11, 17, 25,
    33, 43, 53, 64, 76, 89, 102, 115, 128, 142, 155, 168, 180, 192, 203, 213,
    223, 231, 238, 244, 249, 253, 255, 255, 255, 253, 249, 245, 239, 231, 223, 214,
    203, 192, 180, 168, 155, 142, 128, 115, 102, 89, 76, 64, 53, 43, 33, 25,
    17, 11, 6, 3, 0, 0, 0, 2, 5, 10, 16, 23, 31, 40, 51, 62,
    73, 86, 99, 112, 125, 138, 152, 165, 177, 189, 201, 211, 221, 229, 237, 243,
    248, 252, 254, 255, 255, 253, 250, 246, 240, 233, 225, 216, 206, 195, 183, 171,
    158, 145, 131, 118, 105, 92, 79, 67, 56, 45, 35, 27, 19, 12, 7, 3,
    1, 0, 0, 1, 4, 9, 14, 21, 29, 38, 48, 59, 71, 83, 96, 109,
    122, 135, 149, 162, 174, 186, 198, 209, 219, 227, 235, 242, 247, 251, 254, 255,
    255, 254, 251, 247, 242, 235, 227, 218, 208, 197, 186, 174, 161, 148, 135, 121,
    108, 95, 82, 70, 58, 48, 38, 29, 21, 14, 8, 4, 1, 0, 0, 1,
    4, 7, 13, 19, 27, 36, 46, 56, 68, 80, 93, 106, 119, 132, 145, 159,
    171, 184, 195, 206, 216, 225, 233, 240, 246, 250, 253, 255, 255, 254, 252, 248,
    243, 237, 229, 220, 211, 200, 189, 177, 164, 151, 138, 124, 111, 98, 85, 73,
    61, 50, 40, 31, 22, 15, 10, 5, 2, 0, 0, 0, 3, 6, 11, 18,
    25, 34, 43, 54, 65, 77, 90, 102, 116, 129, 142, 155, 168, 181, 193, 204,
    214, 223, 232, 239, 245, 250, 253, 255, 255, 255, 253, 249, 244, 238, 231, 222,
    213, 203, 191, 179, 167, 154, 141, 128, 114, 101, 88, 76, 64, 53, 42, 33,
    24, 17, 11, 6, 2, 0, 0, 0, 2, 5, 10, 16, 23, 32, 41, 51,
    62, 74, 87, 99, 113, 126, 139, 152, 165, 178, 190, 201, 212, 221, 230, 237,
    244, 249, 252, 255, 255, 255, 253, 250, 245, 240, 233, 224, 215, 205, 194, 182,
    170, 157, 144, 131, 117, 104, 91, 79, 67, 55, 45, 35, 26, 19, 12, 7,
    3, 1, 0, 0, 2, 5, 9, 15, 21, 30, 39, 49, 60, 71, 84, 96,
    109, 123, 136, 149, 162, 175, 187, 199, 209, 219, 228, 236, 242, 247, 251, 254,
    255, 255, 254, 251, 247, 241, 234, 226, 217, 208, 197, 185, 173, 160, 147, 134,
    120, 107, 94, 81, 69, 58, 47, 37, 28, 20, 14, 8, 4, 1, 0, 0,
    1, 4, 8, 13, 20, 28, 36, 46, 57, 68, 81, 93, 106, 120, 133, 146,
    159, 172, 184, 196, 207, 217, 226, 234, 241, 246, 251, 254, 255, 255, 254, 252,
    248, 243, 236, 228, 220, 210, 199, 188, 176, 163, 150, 137, 124, 110, 97, 84,
    72, 60, 49, 39, 30, 22, 15, 9, 5, 2, 0, 0, 1, 3, 7, 12,
    18, 26, 34, 44, 54, 66, 78, 90, 103, 116, 130, 143, 156, 169, 181, 193,
    204, 215, 224, 232, 239, 245, 250, 253, 255, 255, 255, 252, 249, 244, 238, 230,
    222, 212, 202, 191, 179, 166, 153, 140, 127, 113, 100, 87, 75, 63, 52, 42,
    32, 24, 17, 11, 6, 2, 0, 0, 0, 2, 6, 10, 16, 24, 32, 41,
    52, 63, 75, 87, 100, 113, 127, 140, 153, 166, 179, 191, 202, 212, 222, 230,
    238, 244, 249, 252, 255, 255, 255, 253, 250, 245, 239, 232, 224, 215, 204, 193,
    182, 169, 156, 143, 130, 117, 103, 90, 78, 66, 54, 44, 34, 26, 18, 12,
    7, 3, 1, 0, 0, 2, 5, 9, 15, 22, 30, 39, 49, 60, 72, 84,
    97, 110, 124, 137, 150, 163, 176, 188, 199, 210, 220, 228, 236, 243, 248, 252,
    254, 255, 255, 254, 251, 246, 241, 234, 226, 217, 207, 196, 184, 172, 159, 146,
    133, 120, 106, 93, 81, 69, 57, 46, 36, 28, 20, 13, 8, 4, 1, 0,
    0, 1, 4, 8, 13, 20, 28, 37, 47, 58, 69, 81, 94, 107, 120, 134,
    147, 160, 173, 185, 197, 207, 217, 226, 234, 241, 247, 251, 254, 255, 255, 254,
    251, 248, 242, 236, 228, 219, 209, 199, 187, 175, 162, 149, 136, 123, 110, 96,
    84, 71, 60, 49, 39, 30, 22, 15, 9, 5, 2, 0, 0, 1, 3, 7,
    12, 18, 26, 35, 44, 55, 66, 78, 91, 104, 117, 131, 144, 157, 170, 182,
    194, 205, 215, 224, 233, 240, 245, 250, 253, 255, 255, 255, 252, 249, 244, 237,
    230, 221, 212, 201, 190, 178, 165, 153, 139, 126, 113, 100, 87, 74, 62, 51,
    41, 32, 23, 16, 10, 5, 2, 0, 0, 0, 2, 6, 11, 17, 24, 33,
    42, 52, 64, 76, 88, 101, 114, 127, 141, 154, 167, 179, 191, 202, 213, 222,
    231, 238, 244, 249, 253, 255, 255, 255, 253, 250, 245, 239, 232, 223, 214, 204,
    193, 181, 168, 156, 142, 129, 116, 103, 90, 77, 65, 54, 43, 34, 25, 18,
    11, 6, 3, 0, 0, 0, 2, 5, 10, 15, 22, 31, 40, 50, 61, 73,
    85, 98, 111, 124, 138, 151, 164, 176, 188, 200, 210, 220, 229, 236, 243, 248,
    252, 254, 255, 255, 253, 250, 246, 240, 234, 225, 216, 206, 195, 184, 171, 159,
];

/// Entry `i` of the hue-cycling table: one sample of each wave, fully opaque.
pub open spec fn color_entry(i: int) -> [u8; 4] {
    [RED[i], GREEN[i], BLUE[i], 255u8]
}

/// Entry `i` of the luminance-only table: the sample of the first wave on
/// all three colour channels, fully opaque.
pub open spec fn shade_entry(i: int) -> [u8; 4] {
    [RED[i], RED[i], RED[i], 255u8]
}

/// The entries of the hue-cycling table, indexed by escape-iteration count.
pub open spec fn color_entries() -> Seq<[u8; 4]> {
    Seq::new(TABLE_SIZE as nat, |i: int| color_entry(i))
}

/// The entries of the luminance-only table, indexed by escape-iteration count.
pub open spec fn shade_entries() -> Seq<[u8; 4]> {
    Seq::new(TABLE_SIZE as nat, |i: int| shade_entry(i))
}

/// The table that a render uses: the luminance-only one when `grayscale` is
/// set, the hue-cycling one otherwise.
pub open spec fn table_entries(grayscale: bool) -> Seq<[u8; 4]> {
    if grayscale {
        shade_entries()
    } else {
        color_entries()
    }
}

/// Builds the hue-cycling table.
pub fn color_table() -> (table: [[u8; 4]; 1024])
    ensures
        table@ == color_entries(),
{
    let mut table: [[u8; 4]; 1024] = [[0u8, 0u8, 0u8, 255u8];1024];
    let mut index: usize = 0;
    while index < TABLE_SIZE
        invariant
            index <= TABLE_SIZE,
            forall|i: int| 0 <= i < index ==> #[trigger] table@[i] == color_entry(i),
        decreases TABLE_SIZE - index,
    {
        table[index] = [RED[index], GREEN[index], BLUE[index], 255];
        index += 1;
    }
    assert(table@ =~= color_entries());
    table
}

/// Builds the luminance-only table.
pub fn shade_table() -> (table: [[u8; 4]; 1024])
    ensures
        table@ == shade_entries(),
{
    let mut table: [[u8; 4]; 1024] = [[0u8, 0u8, 0u8, 255u8];1024];
    let mut index: usize = 0;
    while index < TABLE_SIZE
        invariant
            index <= TABLE_SIZE,
            forall|i: int| 0 <= i < index ==> #[trigger] table@[i] == shade_entry(i),
        decreases TABLE_SIZE - index,
    {
        table[index] = [RED[index], RED[index], RED[index], 255];
        index += 1;
    }
    assert(table@ =~= shade_entries());
    table
}

/// Both tables have 1024 entries; the first entry of the hue-cycling table is
/// `[128, 244, 146, 255]` and that of the luminance-only table is
/// `[128, 128, 128, 255]`.
pub proof fn lemma_first_entries()
    ensures
        color_entries().len() == 1024,
        shade_entries().len() == 1024,
        color_entries()[0] == [128u8, 244u8, 146u8, 255u8],
        shade_entries()[0] == [128u8, 128u8, 128u8, 255u8],
{
}

/// Where a wave peaks above 255 the sample is 255, and where it dips to zero
/// the sample is 0; a sample is cut off below its value, not rounded.
pub proof fn lemma_clamped_and_truncated_entries()
    ensures
        color_entries()[768] == [255u8, 181u8, 254u8, 255u8],
        shade_entries()[768] == [255u8, 255u8, 255u8, 255u8],
        color_entries()[256] == [0u8, 74u8, 1u8, 255u8],
        shade_entries()[256] == [0u8, 0u8, 0u8, 255u8],
        color_entries()[1] == [146u8, 238u8, 132u8, 255u8],
        shade_entries()[1] == [146u8, 146u8, 146u8, 255u8],
{
}

/// Every entry of either table is fully opaque, and an entry of the
/// luminance-only table repeats the first channel of the hue-cycling entry
/// with the same index on its three colour channels.
pub proof fn lemma_shade_repeats_first_channel(i: int)
    requires
        0 <= i < 1024,
    ensures
        color_entries()[i][3] == 255,
        shade_entries()[i][3] == 255,
        shade_entries()[i][0] == color_entries()[i][0],
        shade_entries()[i][1] == color_entries()[i][0],
        shade_entries()[i][2] == color_entries()[i][0],
        shade_entries()[i] == [color_entries()[i][0], color_entries()[i][0], color_entries()[i][0], 255u8],
{
}

} // verus!
