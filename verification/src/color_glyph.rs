//! The atomic drawable unit: one character together with an optional
//! foreground and background color, and the fixed color-to-code mapping used
//! by the exporter.

use vstd::prelude::*;

verus! {

/// The palette of terminal colors a cell can carry.
#[derive(Clone, Copy, PartialEq, Eq, Structural, Debug)]
pub enum Color {
    Black,
    DarkGrey,
    Red,
    Green,
    Yellow,
    Blue,
    Magenta,
    Cyan,
    White,
    DarkRed,
    DarkGreen,
    DarkYellow,
    DarkBlue,
    DarkMagenta,
    DarkCyan,
    Grey,
    Default,
}

/// One cell of a frame: a character plus optional colors.
#[derive(Clone, Copy, PartialEq, Eq, Debug)]
pub struct ColorGlyph {
    pub glyph: char,
    pub foreground_color: Option<Color>,
    pub background_color: Option<Color>,
}

/// The fill value used when the grid grows: a space with no colors.
pub open spec fn empty_glyph() -> ColorGlyph {
    ColorGlyph { glyph: ' ', foreground_color: None, background_color: None }
}

/// Executable counterpart of [`empty_glyph`].
pub fn empty_color_glyph() -> (g: ColorGlyph)
    ensures
        g == empty_glyph(),
{
    ColorGlyph { glyph: ' ', foreground_color: None, background_color: None }
}

/// The fixed bijection between the sixteen palette colors and single
/// characters; an absent or unmapped color encodes as a space.
pub open spec fn color_code(color: Option<Color>) -> char {
    match color {
        Some(Color::DarkGrey) => 'a',
        Some(Color::Red) => 'r',
        Some(Color::Green) => 'g',
        Some(Color::Yellow) => 'y',
        Some(Color::Blue) => 'b',
        Some(Color::Magenta) => 'm',
        Some(Color::Cyan) => 'c',
        Some(Color::White) => 'w',
        Some(Color::Black) => 'A',
        Some(Color::DarkRed) => 'R',
        Some(Color::DarkGreen) => 'G',
        Some(Color::DarkYellow) => 'Y',
        Some(Color::DarkBlue) => 'B',
        Some(Color::DarkMagenta) => 'M',
        Some(Color::DarkCyan) => 'C',
        Some(Color::Grey) => 'W',
        _ => ' ',
    }
}

/// Encode a cell color as its single-character export code.
pub fn color_to_char(color: &Option<Color>) -> (c: char)
    ensures
        c == color_code(*color),
{
    match color {
        Some(Color::DarkGrey) => 'a',
        Some(Color::Red) => 'r',
        Some(Color::Green) => 'g',
        Some(Color::Yellow) => 'y',
        Some(Color::Blue) => 'b',
        Some(Color::Magenta) => 'm',
        Some(Color::Cyan) => 'c',
        Some(Color::White) => 'w',
        Some(Color::Black) => 'A',
        Some(Color::DarkRed) => 'R',
        Some(Color::DarkGreen) => 'G',
        Some(Color::DarkYellow) => 'Y',
        Some(Color::DarkBlue) => 'B',
        Some(Color::DarkMagenta) => 'M',
        Some(Color::DarkCyan) => 'C',
        Some(Color::Grey) => 'W',
        _ => ' ',
    }
}

} // verus!
