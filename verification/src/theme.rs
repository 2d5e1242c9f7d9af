//! The color theme the city scene is painted with.

use vstd::prelude::*;
use crate::style::Color;

verus! {

/// Colors of the city scene: building bodies, windows, neon signs, street,
/// weather, traffic, and an optional override for the distro logo.
#[derive(Clone, Copy, Debug)]
pub struct Theme {
    pub building_base_colors: [Color; 4],
    pub window_lit: Color,
    pub window_unlit: Color,
    pub window_dark: Color,
    pub neon_main: Color,
    pub neon_sub1: Color,
    pub neon_sub2: Color,
    pub neon_sub3: Color,
    pub street_lamp_lit: Color,
    pub street_lamp_dim: Color,
    pub rain: Color,
    pub rain_bg: Color,
    pub snow: Color,
    pub pedestrian: Color,
    pub ground: Color,
    pub vehicle_colors: [Color; 5],
    pub shuttle_colors: [Color; 3],
    pub police_red: Color,
    pub police_blue: Color,
    pub logo_override: Option<Color>,
}

} // verus!
