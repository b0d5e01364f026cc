//! The fixed 8 by 8 bitmap font: 96 printable glyphs, eight row bytes per
//! glyph, the low bit of each row byte being the leftmost column.

use vstd::prelude::*;

verus! {

/// The glyph rows for byte values 32 through 127, eight bytes per glyph.
/// Within a row byte, bit `i` is column `i` (low bit leftmost).
pub const FONT: [u8; 768] = [
    0x00, 0x00, 0x00, 0x00, 0x00, 0x00, 0x00, 0x00,
    0x18, 0x3c, 0x3c, 0x18, 0x18, 0x00, 0x18, 0x00,
    0x36, 0x36, 0x00, 0x00, 0x00, 0x00, 0x00, 0x00,
    0x36, 0x36, 0x7f, 0x36, 0x7f, 0x36, 0x36, 0x00,
    0x0c, 0x3e, 0x03, 0x1e, 0x30, 0x1f, 0x0c, 0x00,
    0x00, 0x63, 0x33, 0x18, 0x0c, 0x66, 0x63, 0x00,
    0x1c, 0x36, 0x1c, 0x6e, 0x3b, 0x33, 0x6e, 0x00,
    0x06, 0x06, 0x03, 0x00, 0x00, 0x00, 0x00, 0x00,
    0x18, 0x0c, 0x06, 0x06, 0x06, 0x0c, 0x18, 0x00,
    0x06, 0x0c, 0x18, 0x18, 0x18, 0x0c, 0x06, 0x00,
    0x00, 0x66, 0x3c, 0xff, 0x3c, 0x66, 0x00, 0x00,
    0x00, 0x0c, 0x0c, 0x3f, 0x0c, 0x0c, 0x00, 0x00,
    0x00, 0x00, 0x00, 0x00, 0x00, 0x0c, 0x0c, 0x06,
    0x00, 0x00, 0x00, 0x3f, 0x00, 0x00, 0x00, 0x00,
    0x00, 0x00, 0x00, 0x00, 0x00, 0x0c, 0x0c, 0x00,
    0x60, 0x30, 0x18, 0x0c, 0x06, 0x03, 0x01, 0x00,
    0x3e, 0x63, 0x73, 0x7b, 0x6f, 0x67, 0x3e, 0x00,
    0x0c, 0x0e, 0x0c, 0x0c, 0x0c, 0x0c, 0x3f, 0x00,
    0x1e, 0x33, 0x30, 0x1c, 0x06, 0x33, 0x3f, 0x00,
    0x1e, 0x33, 0x30, 0x1c, 0x30, 0x33, 0x1e, 0x00,
    0x38, 0x3c, 0x36, 0x33, 0x7f, 0x30, 0x78, 0x00,
    0x3f, 0x03, 0x1f, 0x30, 0x30, 0x33, 0x1e, 0x00,
    0x1c, 0x06, 0x03, 0x1f, 0x33, 0x33, 0x1e, 0x00,
    0x3f, 0x33, 0x30, 0x18, 0x0c, 0x0c, 0x0c, 0x00,
    0x1e, 0x33, 0x33, 0x1e, 0x33, 0x33, 0x1e, 0x00,
    0x1e, 0x33, 0x33, 0x3e, 0x30, 0x18, 0x0e, 0x00,
    0x00, 0x0c, 0x0c, 0x00, 0x00, 0x0c, 0x0c, 0x00,
    0x00, 0x0c, 0x0c, 0x00, 0x00, 0x0c, 0x0c, 0x06,
    0x18, 0x0c, 0x06, 0x03, 0x06, 0x0c, 0x18, 0x00,
    0x00, 0x00, 0x3f, 0x00, 0x00, 0x3f, 0x00, 0x00,
    0x06, 0x0c, 0x18, 0x30, 0x18, 0x0c, 0x06, 0x00,
    0x1e, 0x33, 0x30, 0x18, 0x0c, 0x00, 0x0c, 0x00,
    0x3e, 0x63, 0x7b, 0x7b, 0x7b, 0x03, 0x1e, 0x00,
    0x0c, 0x1e, 0x33, 0x33, 0x3f, 0x33, 0x33, 0x00,
    0x3f, 0x66, 0x66, 0x3e, 0x66, 0x66, 0x3f, 0x00,
    0x3c, 0x66, 0x03, 0x03, 0x03, 0x66, 0x3c, 0x00,
    0x1f, 0x36, 0x66, 0x66, 0x66, 0x36, 0x1f, 0x00,
    0x7f, 0x46, 0x16, 0x1e, 0x16, 0x46, 0x7f, 0x00,
    0x7f, 0x46, 0x16, 0x1e, 0x16, 0x06, 0x0f, 0x00,
    0x3c, 0x66, 0x03, 0x03, 0x73, 0x66, 0x7c, 0x00,
    0x33, 0x33, 0x33, 0x3f, 0x33, 0x33, 0x33, 0x00,
    0x1e, 0x0c, 0x0c, 0x0c, 0x0c, 0x0c, 0x1e, 0x00,
    0x78, 0x30, 0x30, 0x30, 0x33, 0x33, 0x1e, 0x00,
    0x67, 0x66, 0x36, 0x1e, 0x36, 0x66, 0x67, 0x00,
    0x0f, 0x06, 0x06, 0x06, 0x46, 0x66, 0x7f, 0x00,
    0x63, 0x77, 0x7f, 0x7f, 0x6b, 0x63, 0x63, 0x00,
    0x63, 0x67, 0x6f, 0x7b, 0x73, 0x63, 0x63, 0x00,
    0x1c, 0x36, 0x63, 0x63, 0x63, 0x36, 0x1c, 0x00,
    0x3f, 0x66, 0x66, 0x3e, 0x06, 0x06, 0x0f, 0x00,
    0x1e, 0x33, 0x33, 0x33, 0x3b, 0x1e, 0x38, 0x00,
    0x3f, 0x66, 0x66, 0x3e, 0x36, 0x66, 0x67, 0x00,
    0x1e, 0x33, 0x07, 0x0e, 0x38, 0x33, 0x1e, 0x00,
    0x3f, 0x2d, 0x0c, 0x0c, 0x0c, 0x0c, 0x1e, 0x00,
    0x33, 0x33, 0x33, 0x33, 0x33, 0x33, 0x3f, 0x00,
    0x33, 0x33, 0x33, 0x33, 0x33, 0x1e, 0x0c, 0x00,
    0x63, 0x63, 0x63, 0x6b, 0x7f, 0x77, 0x63, 0x00,
    0x63, 0x63, 0x36, 0x1c, 0x1c, 0x36, 0x63, 0x00,
    0x33, 0x33, 0x33, 0x1e, 0x0c, 0x0c, 0x1e, 0x00,
    0x7f, 0x63, 0x31, 0x18, 0x4c, 0x66, 0x7f, 0x00,
    0x1e, 0x06, 0x06, 0x06, 0x06, 0x06, 0x1e, 0x00,
    0x03, 0x06, 0x0c, 0x18, 0x30, 0x60, 0x40, 0x00,
    0x1e, 0x18, 0x18, 0x18, 0x18, 0x18, 0x1e, 0x00,
    0x08, 0x1c, 0x36, 0x63, 0x00, 0x00, 0x00, 0x00,
    0x00, 0x00, 0x00, 0x00, 0x00, 0x00, 0x00, 0xff,
    0x0c, 0x0c, 0x18, 0x00, 0x00, 0x00, 0x00, 0x00,
    0x00, 0x00, 0x1e, 0x30, 0x3e, 0x33, 0x6e, 0x00,
    0x07, 0x06, 0x06, 0x3e, 0x66, 0x66, 0x3b, 0x00,
    0x00, 0x00, 0x1e, 0x33, 0x03, 0x33, 0x1e, 0x00,
    0x38, 0x30, 0x30, 0x3e, 0x33, 0x33, 0x6e, 0x00,
    0x00, 0x00, 0x1e, 0x33, 0x3f, 0x03, 0x1e, 0x00,
    0x1c, 0x36, 0x06, 0x0f, 0x06, 0x06, 0x0f, 0x00,
    0x00, 0x00, 0x6e, 0x33, 0x33, 0x3e, 0x30, 0x1f,
    0x07, 0x06, 0x36, 0x6e, 0x66, 0x66, 0x67, 0x00,
    0x0c, 0x00, 0x0e, 0x0c, 0x0c, 0x0c, 0x1e, 0x00,
    0x30, 0x00, 0x30, 0x30, 0x30, 0x33, 0x33, 0x1e,
    0x07, 0x06, 0x66, 0x36, 0x1e, 0x36, 0x67, 0x00,
    0x0e, 0x0c, 0x0c, 0x0c, 0x0c, 0x0c, 0x1e, 0x00,
    0x00, 0x00, 0x33, 0x7f, 0x7f, 0x6b, 0x63, 0x00,
    0x00, 0x00, 0x1f, 0x33, 0x33, 0x33, 0x33, 0x00,
    0x00, 0x00, 0x1e, 0x33, 0x33, 0x33, 0x1e, 0x00,
    0x00, 0x00, 0x3b, 0x66, 0x66, 0x3e, 0x06, 0x0f,
    0x00, 0x00, 0x6e, 0x33, 0x33, 0x3e, 0x30, 0x78,
    0x00, 0x00, 0x3b, 0x6e, 0x66, 0x06, 0x0f, 0x00,
    0x00, 0x00, 0x3e, 0x03, 0x1e, 0x30, 0x1f, 0x00,
    0x08, 0x0c, 0x3e, 0x0c, 0x0c, 0x2c, 0x18, 0x00,
    0x00, 0x00, 0x33, 0x33, 0x33, 0x33, 0x6e, 0x00,
    0x00, 0x00, 0x33, 0x33, 0x33, 0x1e, 0x0c, 0x00,
    0x00, 0x00, 0x63, 0x6b, 0x7f, 0x7f, 0x36, 0x00,
    0x00, 0x00, 0x63, 0x36, 0x1c, 0x36, 0x63, 0x00,
    0x00, 0x00, 0x33, 0x33, 0x33, 0x3e, 0x30, 0x1f,
    0x00, 0x00, 0x3f, 0x19, 0x0c, 0x26, 0x3f, 0x00,
    0x38, 0x0c, 0x0c, 0x07, 0x0c, 0x0c, 0x38, 0x00,
    0x18, 0x18, 0x18, 0x00, 0x18, 0x18, 0x18, 0x00,
    0x07, 0x0c, 0x0c, 0x38, 0x0c, 0x0c, 0x07, 0x00,
    0x6e, 0x3b, 0x00, 0x00, 0x00, 0x00, 0x00, 0x00,
    0x00, 0x00, 0x00, 0x00, 0x00, 0x00, 0x00, 0x00,
];

/// The row byte of a glyph: byte values outside the printable range have
/// empty glyphs.
pub open spec fn glyph_row_spec(c: u8, j: int) -> u8
    recommends
        0 <= j < 8,
{
    if 32 <= c < 128 {
        FONT[(c - 32) * 8 + j]
    } else {
        0
    }
}

/// Whether the glyph for byte `c` inks the cell in column `i`, row `j`.
pub open spec fn glyph_on(c: u8, i: int, j: int) -> bool
    recommends
        0 <= i < 8,
        0 <= j < 8,
{
    (glyph_row_spec(c, j) >> (i as u8)) & 1u8 == 1u8
}

/// The row byte of a glyph.
pub fn glyph_row(c: u8, j: u32) -> (r: u8)
    requires
        j < 8,
    ensures
        r == glyph_row_spec(c, j as int),
{
    if 32 <= c && c < 128 {
        let idx: usize = ((c - 32) as usize) * 8 + (j as usize);
        FONT[idx]
    } else {
        0
    }
}

} // verus!
