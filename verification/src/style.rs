//! Terminal colors, as the cell grid stores them.

use vstd::prelude::*;

verus! {

/// A terminal color: the sixteen named ANSI colors, the terminal's default
/// (`Reset`), a 24-bit RGB triple or an entry of the 256-color palette.
#[derive(Clone, Copy, PartialEq, Eq, Debug, Structural)]
pub enum Color {
    Reset,
    Black,
    Red,
    Green,
    Yellow,
    Blue,
    Magenta,
    Cyan,
    Gray,
    DarkGray,
    LightRed,
    LightGreen,
    LightYellow,
    LightBlue,
    LightMagenta,
    LightCyan,
    White,
    Rgb(u8, u8, u8),
    Indexed(u8),
}

} // verus!
