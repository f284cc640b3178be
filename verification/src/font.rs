//! The built-in hexadecimal font.

use vstd::prelude::*;

verus! {

/// The glyphs for the digits `0` to `F`, five bytes each, in the order of the
/// digits. The interpreter keeps them at the bottom of memory, from address 0.
pub const CHIP8_FONT_SET: [u8; 80] = [
    0xF0, 0x90, 0x90, 0x90, 0xF0,
    0x20, 0x60, 0x20, 0x20, 0x70,
    0xF0, 0x10, 0xF0, 0x80, 0xF0,
    0xF0, 0x10, 0xF0, 0x10, 0xF0,
    0x90, 0x90, 0xF0, 0x10, 0x10,
    0xF0, 0x80, 0xF0, 0x10, 0xF0,
    0xF0, 0x80, 0xF0, 0x90, 0xF0,
    0xF0, 0x10, 0x20, 0x40, 0x40,
    0xF0, 0x90, 0xF0, 0x90, 0xF0,
    0xF0, 0x90, 0xF0, 0x10, 0xF0,
    0xF0, 0x90, 0xF0, 0x90, 0x90,
    0xE0, 0x90, 0xE0, 0x90, 0xE0,
    0xF0, 0x80, 0x80, 0x80, 0xF0,
    0xE0, 0x90, 0x90, 0x90, 0xE0,
    0xF0, 0x80, 0xF0, 0x80, 0xF0,
    0xF0, 0x80, 0xF0, 0x80, 0x80,
];

/// The address of the glyph for `digit`: glyphs are five bytes long and the
/// table starts at address 0. For a value above `0xF` there is no glyph; the
/// address is five times the value all the same.
pub open spec fn glyph_address(digit: u8) -> u16 {
    (digit * 5) as u16
}

} // verus!
