//! The sixteen hardware colors and the packed attribute byte.

use vstd::prelude::*;

verus! {

/// One of the sixteen colors the adapter can display. The hardware
/// encoding of a color is its position in this declaration order,
/// starting from zero.
#[allow(dead_code)]
#[derive(Debug, Clone, Copy, PartialEq, Eq, Structural)]
pub enum Color {
    Black,
    Blue,
    Green,
    Cyan,
    Red,
    Magenta,
    Brown,
    LightGray,
    DarkGray,
    LightBlue,
    LightGreen,
    LightCyan,
    LightRed,
    Pink,
    Yellow,
    White,
}

/// The hardware nibble value of a color.
pub open spec fn color_num(c: Color) -> u8 {
    match c {
        Color::Black => 0,
        Color::Blue => 1,
        Color::Green => 2,
        Color::Cyan => 3,
        Color::Red => 4,
        Color::Magenta => 5,
        Color::Brown => 6,
        Color::LightGray => 7,
        Color::DarkGray => 8,
        Color::LightBlue => 9,
        Color::LightGreen => 10,
        Color::LightCyan => 11,
        Color::LightRed => 12,
        Color::Pink => 13,
        Color::Yellow => 14,
        Color::White => 15,
    }
}

impl Color {
    /// The hardware nibble value of this color, as executable code.
    pub fn number(self) -> (n: u8)
        ensures
            n == color_num(self),
    {
        match self {
            Color::Black => 0,
            Color::Blue => 1,
            Color::Green => 2,
            Color::Cyan => 3,
            Color::Red => 4,
            Color::Magenta => 5,
            Color::Brown => 6,
            Color::LightGray => 7,
            Color::DarkGray => 8,
            Color::LightBlue => 9,
            Color::LightGreen => 10,
            Color::LightCyan => 11,
            Color::LightRed => 12,
            Color::Pink => 13,
            Color::Yellow => 14,
            Color::White => 15,
        }
    }
}

/// A packed attribute byte: background color in the high nibble,
/// foreground color in the low nibble.
#[derive(Debug, Clone, Copy, PartialEq, Eq, Structural)]
pub struct ColorCode(pub u8);

/// The attribute byte that encodes the given foreground/background pair.
pub open spec fn attr_of(foreground: Color, background: Color) -> u8 {
    (color_num(background) * 16 + color_num(foreground)) as u8
}

impl ColorCode {
    /// Packs a foreground and a background color into one attribute byte.
    pub fn new(foreground: Color, background: Color) -> (r: ColorCode)
        ensures
            r.0 == attr_of(foreground, background),
    {
        let f = foreground.number();
        let b = background.number();
        assert(b <= 15 && f <= 15);
        assert((b << 4u8) | f == b * 16 + f) by (bit_vector)
            requires
                b <= 15 && f <= 15,
        ;
        ColorCode(b << 4 | f)
    }
}

} // verus!
