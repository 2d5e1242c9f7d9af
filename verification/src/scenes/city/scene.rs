//! The city scene's per-frame decisions: how much of the scene a terminal
//! of a given size shows, when the simulation advances, and the cached
//! building layout.

use vstd::prelude::*;
use crate::layout::Rect;
use crate::scenes::city::buildings::{BuildingInfo, buildings_spec, compute_buildings};

verus! {

/// How much of the city a frame draws.
#[derive(Clone, Copy, PartialEq, Eq, Debug, Structural)]
pub enum DrawMode {
    /// An empty area: nothing at all.
    Nothing,
    /// Narrower than 12 or shorter than 3: the background color only.
    Background,
    /// Narrower than 45 or shorter than 15: the background and a blinking
    /// diamond.
    Mini,
    /// The whole scene.
    Full,
}

/// What a frame of `area` draws.
pub open spec fn mode_of(area: Rect) -> DrawMode {
    if area.width == 0 || area.height == 0 {
        DrawMode::Nothing
    } else if area.width < 12 || area.height < 3 {
        DrawMode::Background
    } else if area.width < 45 || area.height < 15 {
        DrawMode::Mini
    } else {
        DrawMode::Full
    }
}

/// Decides what a frame of `area` draws.
pub fn draw_mode(area: Rect) -> (m: DrawMode)
    ensures
        m == mode_of(area),
{
    if area.width == 0 || area.height == 0 {
        DrawMode::Nothing
    } else if area.width < 12 || area.height < 3 {
        DrawMode::Background
    } else if area.width < 45 || area.height < 15 {
        DrawMode::Mini
    } else {
        DrawMode::Full
    }
}

/// One simulation step over `area`: the new frame counter and whether the
/// traffic and weather move. An empty area changes nothing; otherwise the
/// counter advances (wrapping), and the world moves only on an area at
/// least 32 x 12.
pub fn step(frame_count: u64, area: Rect) -> (r: (u64, bool))
    ensures
        r == (if area.width == 0 || area.height == 0 {
            (frame_count, false)
        } else {
            (frame_count.wrapping_add(1), area.width >= 32 && area.height >= 12)
        }),
{
    if area.width == 0 || area.height == 0 {
        return (frame_count, false);
    }
    (frame_count.wrapping_add(1), area.width >= 32 && area.height >= 12)
}

/// The building layout, computed for the size it was last asked for.
pub struct BuildingCache {
    pub width: u16,
    pub height: u16,
    pub buildings: Vec<BuildingInfo>,
}

impl BuildingCache {
    /// A cache for no size yet.
    pub fn new() -> (c: BuildingCache)
        ensures
            c.width == 0,
            c.height == 0,
            c.buildings@.len() == 0,
            c.buildings@ == buildings_spec(0, 0),
    {
        let c = BuildingCache { width: 0, height: 0, buildings: Vec::new() };
        assert(c.buildings@ =~= buildings_spec(0, 0));
        c
    }

    /// Recomputes the buildings when the area's size differs from the cached
    /// one; afterwards the cache holds the buildings of the area's size.
    pub fn rebuild_if_needed(&mut self, area: Rect)
        requires
            old(self).buildings@ == buildings_spec(old(self).width, old(self).height),
        ensures
            final(self).width == area.width,
            final(self).height == area.height,
            final(self).buildings@ == buildings_spec(area.width, area.height),
            (old(self).width == area.width && old(self).height == area.height) ==> final(self).buildings@
                == old(self).buildings@,
    {
        if area.width != self.width || area.height != self.height {
            self.buildings = compute_buildings(area.width, area.height);
            self.width = area.width;
            self.height = area.height;
        }
    }
}

} // verus!
