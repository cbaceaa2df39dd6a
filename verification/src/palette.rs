//! The background colour that belongs to a character.

use vstd::prelude::*;

verus! {

/// Number of colours in the palette.
pub const PALETTE_SIZE: u32 = 9;

/// The palette: nine 24-bit RGB colours, `0xRRGGBB`.
pub open spec fn palette(index: int) -> u32 {
    if index == 0 {
        0x45BDF3
    } else if index == 1 {
        0xE08F70
    } else if index == 2 {
        0x4DB6AC
    } else if index == 3 {
        0x9575CD
    } else if index == 4 {
        0xB0855E
    } else if index == 5 {
        0xF06292
    } else if index == 6 {
        0xA3D36C
    } else if index == 7 {
        0x7986CB
    } else {
        0xF1B91D
    }
}

/// The background of a character: the palette entry at its codepoint modulo nine.
pub open spec fn bg_color(c: char) -> u32 {
    palette((c as u32 % PALETTE_SIZE) as int)
}

/// Background colour of `c`, as `0xRRGGBB`.
pub fn get_bg_color(c: char) -> (color: u32)
    ensures
        color == bg_color(c),
        color <= 0xFFFFFF,
{
    match (c as u32) % PALETTE_SIZE {
        0 => 0x45BDF3,
        1 => 0xE08F70,
        2 => 0x4DB6AC,
        3 => 0x9575CD,
        4 => 0xB0855E,
        5 => 0xF06292,
        6 => 0xA3D36C,
        7 => 0x7986CB,
        _ => 0xF1B91D,
    }
}

/// Two characters whose codepoints agree modulo nine have the same background.
pub proof fn lemma_bg_color_by_residue(a: char, b: char)
    requires
        a as u32 % PALETTE_SIZE == b as u32 % PALETTE_SIZE,
    ensures
        bg_color(a) == bg_color(b),
{
}

} // verus!
