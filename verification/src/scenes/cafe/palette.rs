//! Hardcoded cafe palette, shared by all cafe components.

use vstd::prelude::*;
use crate::style::Color;

verus! {

/// Wall.
#[verifier::allow_in_spec]
pub fn wall() -> Color
    returns
        Color::Rgb(54, 31, 31),
{
    Color::Rgb(54, 31, 31)
}

/// Wall, top of the gradient.
#[verifier::allow_in_spec]
pub fn wall_dark() -> Color
    returns
        Color::Rgb(30, 18, 18),
{
    Color::Rgb(30, 18, 18)
}

/// Counter top highlight.
#[verifier::allow_in_spec]
pub fn counter_top() -> Color
    returns
        Color::Rgb(178, 101, 49),
{
    Color::Rgb(178, 101, 49)
}

/// Counter front panel.
#[verifier::allow_in_spec]
pub fn counter_body() -> Color
    returns
        Color::Rgb(85, 43, 30),
{
    Color::Rgb(85, 43, 30)
}

/// Shadow under the counter top.
#[verifier::allow_in_spec]
pub fn counter_shadow() -> Color
    returns
        Color::Rgb(60, 30, 20),
{
    Color::Rgb(60, 30, 20)
}

/// Floor.
#[verifier::allow_in_spec]
pub fn floor() -> Color
    returns
        Color::Rgb(45, 22, 15),
{
    Color::Rgb(45, 22, 15)
}

/// Floor, bottom of the gradient.
#[verifier::allow_in_spec]
pub fn floor_dark() -> Color
    returns
        Color::Rgb(30, 15, 10),
{
    Color::Rgb(30, 15, 10)
}

/// Baseboard line.
#[verifier::allow_in_spec]
pub fn floor_line() -> Color
    returns
        Color::Rgb(65, 35, 20),
{
    Color::Rgb(65, 35, 20)
}

/// Wood (frames, shelves, boards).
#[verifier::allow_in_spec]
pub fn wood() -> Color
    returns
        Color::Rgb(110, 62, 32),
{
    Color::Rgb(110, 62, 32)
}

/// Dark wood.
#[verifier::allow_in_spec]
pub fn wood_dark() -> Color
    returns
        Color::Rgb(70, 40, 22),
{
    Color::Rgb(70, 40, 22)
}

/// Menu board.
#[verifier::allow_in_spec]
pub fn board_bg() -> Color
    returns
        Color::Rgb(24, 17, 13),
{
    Color::Rgb(24, 17, 13)
}

/// Neon amber.
#[verifier::allow_in_spec]
pub fn amber() -> Color
    returns
        Color::Rgb(255, 176, 64),
{
    Color::Rgb(255, 176, 64)
}

/// Dimmed neon amber.
#[verifier::allow_in_spec]
pub fn amber_dim() -> Color
    returns
        Color::Rgb(150, 95, 40),
{
    Color::Rgb(150, 95, 40)
}

/// Cream lettering.
#[verifier::allow_in_spec]
pub fn cream() -> Color
    returns
        Color::Rgb(232, 200, 160),
{
    Color::Rgb(232, 200, 160)
}

/// Dim cream.
#[verifier::allow_in_spec]
pub fn cream_dim() -> Color
    returns
        Color::Rgb(190, 158, 122),
{
    Color::Rgb(190, 158, 122)
}

/// Night sky.
#[verifier::allow_in_spec]
pub fn night() -> Color
    returns
        Color::Rgb(24, 38, 70),
{
    Color::Rgb(24, 38, 70)
}

/// Night sky, top.
#[verifier::allow_in_spec]
pub fn night_deep() -> Color
    returns
        Color::Rgb(10, 18, 38),
{
    Color::Rgb(10, 18, 38)
}

/// City silhouette.
#[verifier::allow_in_spec]
pub fn city() -> Color
    returns
        Color::Rgb(13, 17, 30),
{
    Color::Rgb(13, 17, 30)
}

/// Lit city window.
#[verifier::allow_in_spec]
pub fn city_lit() -> Color
    returns
        Color::Rgb(235, 170, 80),
{
    Color::Rgb(235, 170, 80)
}

/// Rain.
#[verifier::allow_in_spec]
pub fn rain() -> Color
    returns
        Color::Rgb(110, 140, 190),
{
    Color::Rgb(110, 140, 190)
}

/// CRT text.
#[verifier::allow_in_spec]
pub fn crt_green() -> Color
    returns
        Color::Rgb(110, 235, 110),
{
    Color::Rgb(110, 235, 110)
}

/// CRT screen.
#[verifier::allow_in_spec]
pub fn crt_bg() -> Color
    returns
        Color::Rgb(10, 20, 12),
{
    Color::Rgb(10, 20, 12)
}

/// CRT bezel.
#[verifier::allow_in_spec]
pub fn crt_bezel() -> Color
    returns
        Color::Rgb(40, 32, 27),
{
    Color::Rgb(40, 32, 27)
}

/// Stool seat.
#[verifier::allow_in_spec]
pub fn stool_seat() -> Color
    returns
        Color::Rgb(18, 11, 8),
{
    Color::Rgb(18, 11, 8)
}

/// Stool post and feet.
#[verifier::allow_in_spec]
pub fn stool_leg() -> Color
    returns
        Color::Rgb(70, 40, 22),
{
    Color::Rgb(70, 40, 22)
}

/// Mug.
#[verifier::allow_in_spec]
pub fn mug() -> Color
    returns
        Color::Rgb(150, 110, 80),
{
    Color::Rgb(150, 110, 80)
}

/// Steam.
#[verifier::allow_in_spec]
pub fn steam() -> Color
    returns
        Color::Rgb(140, 125, 115),
{
    Color::Rgb(140, 125, 115)
}

/// Jar.
#[verifier::allow_in_spec]
pub fn jar() -> Color
    returns
        Color::Rgb(196, 160, 110),
{
    Color::Rgb(196, 160, 110)
}

/// Jar lid.
#[verifier::allow_in_spec]
pub fn jar_lid() -> Color
    returns
        Color::Rgb(120, 90, 50),
{
    Color::Rgb(120, 90, 50)
}

/// Glass shelf.
#[verifier::allow_in_spec]
pub fn glass() -> Color
    returns
        Color::Rgb(92, 82, 74),
{
    Color::Rgb(92, 82, 74)
}

} // verus!
