//! The distro logo painted on the monolith.

use vstd::prelude::*;
use crate::style::Color;

verus! {

/// One cell of a logo: its character and colors (`bg == Reset` lets the
/// building show through).
#[derive(Clone, Copy, PartialEq, Eq, Debug, Structural)]
pub struct LogoPixel {
    pub ch: char,
    pub color: Color,
    pub bg: Color,
}

/// A distro logo as a grid of optional pixels (rows of columns), whether it
/// is the compact variant, and the name shown on the monolith sign.
pub struct DistroLogo {
    pub grid: Vec<Vec<Option<LogoPixel>>>,
    pub is_compact: bool,
    pub display_name: String,
}

/// Rows of the logo area on the monolith.
pub const LOGO_ROWS: usize = 20;
/// Columns of the logo area on the monolith.
pub const LOGO_COLS: usize = 32;

impl DistroLogo {
    /// The grid covers the whole 20 x 32 logo area.
    pub open spec fn wf(&self) -> bool {
        &&& self.grid@.len() >= LOGO_ROWS
        &&& forall|y: int| 0 <= y < LOGO_ROWS ==> (#[trigger] self.grid@[y])@.len() >= LOGO_COLS
    }

    /// The logo pixel at `(x, y)`; `None` outside the logo area.
    pub open spec fn pixel(&self, x: int, y: int) -> Option<LogoPixel> {
        if 0 <= y < LOGO_ROWS && 0 <= x < LOGO_COLS {
            self.grid@[y]@[x]
        } else {
            None
        }
    }

    /// The logo pixel at `(x, y)` of the logo area.
    pub fn pixel_at(&self, x: usize, y: usize) -> (r: Option<LogoPixel>)
        requires
            self.wf(),
            x < LOGO_COLS,
            y < LOGO_ROWS,
        ensures
            r == self.pixel(x as int, y as int),
    {
        self.grid[y][x]
    }
}

} // verus!
