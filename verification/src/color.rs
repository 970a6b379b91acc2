//! Console colors and the packed attribute byte the device expects.

use vstd::prelude::*;

verus! {

/// Colors for the device console.
///
/// All colors can be used as foreground colors. The first 8 colors can also
/// be used as background colors.
#[derive(Clone, Copy, Debug)]
pub enum Color {
    /// Color index 0; a valid background.
    Black,
    /// Color index 1; a valid background.
    Blue,
    /// Color index 2; a valid background.
    Green,
    /// Color index 3; a valid background.
    Cyan,
    /// Color index 4; a valid background.
    Red,
    /// Color index 5; a valid background.
    Magenta,
    /// Color index 6; a valid background.
    Brown,
    /// Color index 7; a valid background.
    LightGray,
    /// Color index 8; foreground only.
    DarkGray,
    /// Color index 9; foreground only.
    LightBlue,
    /// Color index 10; foreground only.
    LightGreen,
    /// Color index 11; foreground only.
    LightCyan,
    /// Color index 12; foreground only.
    LightRed,
    /// Color index 13; foreground only.
    LightMagenta,
    /// Color index 14; foreground only.
    Yellow,
    /// Color index 15; foreground only.
    White,
}

impl Color {
    /// The numeric index of this color in the device's palette, 0 to 15.
    pub open spec fn spec_code(self) -> u8 {
        match self {
            Color::Black => 0,
            Color::Blue => 1,
            Color::Green => 2,
            Color::Cyan => 3,
            Color::Red => 4,
            Color::Magenta => 5,
            Color::Brown => 6,
            Color::LightGray => 7,
            Color::DarkGray => 8,
            Color::LightBlue => 9,
            Color::LightGreen => 10,
            Color::LightCyan => 11,
            Color::LightRed => 12,
            Color::LightMagenta => 13,
            Color::Yellow => 14,
            Color::White => 15,
        }
    }

    /// The numeric index of this color in the device's palette, 0 to 15.
    #[verifier::when_used_as_spec(spec_code)]
    pub fn code(self) -> (r: u8)
        ensures
            r == self.spec_code(),
            r < 16,
    {
        match self {
            Color::Black => 0,
            Color::Blue => 1,
            Color::Green => 2,
            Color::Cyan => 3,
            Color::Red => 4,
            Color::Magenta => 5,
            Color::Brown => 6,
            Color::LightGray => 7,
            Color::DarkGray => 8,
            Color::LightBlue => 9,
            Color::LightGreen => 10,
            Color::LightCyan => 11,
            Color::LightRed => 12,
            Color::LightMagenta => 13,
            Color::Yellow => 14,
            Color::White => 15,
        }
    }
}

/// Packs a foreground and a background color into the single attribute byte
/// the device's set-attribute entry point takes: bits 0 to 3 hold the
/// foreground index, bits 4 to 6 the background index.
/// Exactly the first eight colors are valid backgrounds. A color at or
/// above index eight never meets the precondition of a color-setting call,
/// so no device call can ever be issued for such a background: the request
/// is ruled out before it exists.
pub proof fn lemma_background_validity(c: Color)
    ensures
        (c.spec_code() < 8) <==> (c == Color::Black || c == Color::Blue || c == Color::Green
            || c == Color::Cyan || c == Color::Red || c == Color::Magenta || c == Color::Brown
            || c == Color::LightGray),
{
}

/// The packing loses nothing: both color indices can be read back out of
/// the attribute byte, the foreground from its low four bits and the
/// background from the three bits above them.
pub proof fn lemma_attribute_value_is_lossless(fg: u8, bg: u8)
    requires
        fg < 16,
        bg < 8,
    ensures
        (((bg & 7) << 4) | (fg & 15)) & 15 == fg,
        ((((bg & 7) << 4) | (fg & 15)) >> 4) & 7 == bg,
{
    assert(fg < 16 && bg < 8 ==> ((((bg & 7) << 4) | (fg & 15)) & 15 == fg && ((((bg & 7) << 4)
        | (fg & 15)) >> 4) & 7 == bg)) by (bit_vector);
}

pub fn attribute_value(foreground: Color, background: Color) -> (r: u8)
    ensures
        r == ((background.spec_code() & 7) << 4) | (foreground.spec_code() & 15),
        r < 128,
{
    let fgc = foreground.code();
    let bgc = background.code();
    let r: u8 = ((bgc & 0x7) << 4) | (fgc & 0xF);
    proof {
        assert(((bgc & 0x7) << 4) | (fgc & 0xF) < 128) by (bit_vector);
    }
    r
}

} // verus!
