//! The fixed system palette: the 64 colours the hardware can emit.

use crate::render::Rgb;
use vstd::prelude::*;

verus! {

/// The colour a palette-memory byte selects, as a value: only the low six
/// bits matter; the hardware ignores the rest, so the index is folded
/// modulo 64.
pub open spec fn system_palette_spec(index: u8) -> Rgb {
    match index % 64 {
        0 => Rgb(0x80, 0x80, 0x80),
        1 => Rgb(0x00, 0x3d, 0xa6),
        2 => Rgb(0x00, 0x12, 0xb0),
        3 => Rgb(0x44, 0x00, 0x96),
        4 => Rgb(0xa1, 0x00, 0x5e),
        5 => Rgb(0xc7, 0x00, 0x28),
        6 => Rgb(0xba, 0x06, 0x00),
        7 => Rgb(0x8c, 0x17, 0x00),
        8 => Rgb(0x5c, 0x2f, 0x00),
        9 => Rgb(0x10, 0x45, 0x00),
        10 => Rgb(0x05, 0x4a, 0x00),
        11 => Rgb(0x00, 0x47, 0x2e),
        12 => Rgb(0x00, 0x41, 0x66),
        13 => Rgb(0x00, 0x00, 0x00),
        14 => Rgb(0x05, 0x05, 0x05),
        15 => Rgb(0x05, 0x05, 0x05),
        16 => Rgb(0xc7, 0xc7, 0xc7),
        17 => Rgb(0x00, 0x77, 0xff),
        18 => Rgb(0x21, 0x55, 0xff),
        19 => Rgb(0x82, 0x37, 0xfa),
        20 => Rgb(0xeb, 0x2f, 0xb5),
        21 => Rgb(0xff, 0x29, 0x50),
        22 => Rgb(0xff, 0x22, 0x00),
        23 => Rgb(0xd6, 0x32, 0x00),
        24 => Rgb(0xc4, 0x62, 0x00),
        25 => Rgb(0x35, 0x80, 0x00),
        26 => Rgb(0x05, 0x8f, 0x00),
        27 => Rgb(0x00, 0x8a, 0x55),
        28 => Rgb(0x00, 0x99, 0xcc),
        29 => Rgb(0x21, 0x21, 0x21),
        30 => Rgb(0x09, 0x09, 0x09),
        31 => Rgb(0x09, 0x09, 0x09),
        32 => Rgb(0xff, 0xff, 0xff),
        33 => Rgb(0x0f, 0xd7, 0xff),
        34 => Rgb(0x69, 0xa2, 0xff),
        35 => Rgb(0xd4, 0x80, 0xff),
        36 => Rgb(0xff, 0x45, 0xf3),
        37 => Rgb(0xff, 0x61, 0x8b),
        38 => Rgb(0xff, 0x88, 0x33),
        39 => Rgb(0xff, 0x9c, 0x12),
        40 => Rgb(0xfa, 0xbc, 0x20),
        41 => Rgb(0x9f, 0xe3, 0x0e),
        42 => Rgb(0x2b, 0xf0, 0x35),
        43 => Rgb(0x0c, 0xf0, 0xa4),
        44 => Rgb(0x05, 0xfb, 0xff),
        45 => Rgb(0x5e, 0x5e, 0x5e),
        46 => Rgb(0x0d, 0x0d, 0x0d),
        47 => Rgb(0x0d, 0x0d, 0x0d),
        48 => Rgb(0xff, 0xff, 0xff),
        49 => Rgb(0xa6, 0xfc, 0xff),
        50 => Rgb(0xb3, 0xec, 0xff),
        51 => Rgb(0xda, 0xab, 0xeb),
        52 => Rgb(0xff, 0xa8, 0xf9),
        53 => Rgb(0xff, 0xab, 0xb3),
        54 => Rgb(0xff, 0xd2, 0xb0),
        55 => Rgb(0xff, 0xef, 0xa6),
        56 => Rgb(0xff, 0xf7, 0x9c),
        57 => Rgb(0xd7, 0xe8, 0x95),
        58 => Rgb(0xa6, 0xed, 0xaf),
        59 => Rgb(0xa2, 0xf2, 0xda),
        60 => Rgb(0x99, 0xff, 0xfc),
        61 => Rgb(0xdd, 0xdd, 0xdd),
        62 => Rgb(0x11, 0x11, 0x11),
        63 => Rgb(0x11, 0x11, 0x11),
        _ => Rgb(0, 0, 0),
    }
}

/// The colour a palette-memory byte selects.
pub fn system_palette(index: u8) -> (r: Rgb)
    ensures
        r == system_palette_spec(index),
{
    match index % 64 {
        0 => Rgb(0x80, 0x80, 0x80),
        1 => Rgb(0x00, 0x3d, 0xa6),
        2 => Rgb(0x00, 0x12, 0xb0),
        3 => Rgb(0x44, 0x00, 0x96),
        4 => Rgb(0xa1, 0x00, 0x5e),
        5 => Rgb(0xc7, 0x00, 0x28),
        6 => Rgb(0xba, 0x06, 0x00),
        7 => Rgb(0x8c, 0x17, 0x00),
        8 => Rgb(0x5c, 0x2f, 0x00),
        9 => Rgb(0x10, 0x45, 0x00),
        10 => Rgb(0x05, 0x4a, 0x00),
        11 => Rgb(0x00, 0x47, 0x2e),
        12 => Rgb(0x00, 0x41, 0x66),
        13 => Rgb(0x00, 0x00, 0x00),
        14 => Rgb(0x05, 0x05, 0x05),
        15 => Rgb(0x05, 0x05, 0x05),
        16 => Rgb(0xc7, 0xc7, 0xc7),
        17 => Rgb(0x00, 0x77, 0xff),
        18 => Rgb(0x21, 0x55, 0xff),
        19 => Rgb(0x82, 0x37, 0xfa),
        20 => Rgb(0xeb, 0x2f, 0xb5),
        21 => Rgb(0xff, 0x29, 0x50),
        22 => Rgb(0xff, 0x22, 0x00),
        23 => Rgb(0xd6, 0x32, 0x00),
        24 => Rgb(0xc4, 0x62, 0x00),
        25 => Rgb(0x35, 0x80, 0x00),
        26 => Rgb(0x05, 0x8f, 0x00),
        27 => Rgb(0x00, 0x8a, 0x55),
        28 => Rgb(0x00, 0x99, 0xcc),
        29 => Rgb(0x21, 0x21, 0x21),
        30 => Rgb(0x09, 0x09, 0x09),
        31 => Rgb(0x09, 0x09, 0x09),
        32 => Rgb(0xff, 0xff, 0xff),
        33 => Rgb(0x0f, 0xd7, 0xff),
        34 => Rgb(0x69, 0xa2, 0xff),
        35 => Rgb(0xd4, 0x80, 0xff),
        36 => Rgb(0xff, 0x45, 0xf3),
        37 => Rgb(0xff, 0x61, 0x8b),
        38 => Rgb(0xff, 0x88, 0x33),
        39 => Rgb(0xff, 0x9c, 0x12),
        40 => Rgb(0xfa, 0xbc, 0x20),
        41 => Rgb(0x9f, 0xe3, 0x0e),
        42 => Rgb(0x2b, 0xf0, 0x35),
        43 => Rgb(0x0c, 0xf0, 0xa4),
        44 => Rgb(0x05, 0xfb, 0xff),
        45 => Rgb(0x5e, 0x5e, 0x5e),
        46 => Rgb(0x0d, 0x0d, 0x0d),
        47 => Rgb(0x0d, 0x0d, 0x0d),
        48 => Rgb(0xff, 0xff, 0xff),
        49 => Rgb(0xa6, 0xfc, 0xff),
        50 => Rgb(0xb3, 0xec, 0xff),
        51 => Rgb(0xda, 0xab, 0xeb),
        52 => Rgb(0xff, 0xa8, 0xf9),
        53 => Rgb(0xff, 0xab, 0xb3),
        54 => Rgb(0xff, 0xd2, 0xb0),
        55 => Rgb(0xff, 0xef, 0xa6),
        56 => Rgb(0xff, 0xf7, 0x9c),
        57 => Rgb(0xd7, 0xe8, 0x95),
        58 => Rgb(0xa6, 0xed, 0xaf),
        59 => Rgb(0xa2, 0xf2, 0xda),
        60 => Rgb(0x99, 0xff, 0xfc),
        61 => Rgb(0xdd, 0xdd, 0xdd),
        62 => Rgb(0x11, 0x11, 0x11),
        63 => Rgb(0x11, 0x11, 0x11),
        _ => Rgb(0, 0, 0),
    }
}

} // verus!
