//! Low-level cell painting helpers shared by the meadow components: the same
//! cell operations and per-cell hash as the cafe's.

use vstd::prelude::*;
use crate::buffer::{Buffer, put, put_glyph, solid};
use crate::scenes::cafe::paint::hash_spec;
use crate::style::Color;

verus! {

/// Fills one cell with a solid color (space char, fg == bg).
pub fn fill(buf: &mut Buffer, x: u16, y: u16, color: Color)
    requires
        old(buf).wf(),
    ensures
        final(buf).wf(),
        final(buf).same_size(&*old(buf)),
        final(buf)@ == put(old(buf)@, x as int, y as int, solid(color)),
{
    crate::scenes::cafe::paint::fill(buf, x, y, color)
}

/// Sets a char with fg, keeping whatever bg the cell already has.
pub fn glyph_over(buf: &mut Buffer, x: u16, y: u16, ch: char, fg: Color)
    requires
        old(buf).wf(),
    ensures
        final(buf).wf(),
        final(buf).same_size(&*old(buf)),
        final(buf)@ == put_glyph(old(buf)@, x as int, y as int, ch, fg),
{
    crate::scenes::cafe::paint::glyph_over(buf, x, y, ch, fg)
}

/// Small deterministic hash for stable per-cell variation.
pub fn hash(a: u32, b: u32) -> (h: u32)
    ensures
        h == hash_spec(a, b),
{
    crate::scenes::cafe::paint::hash(a, b)
}

} // verus!
