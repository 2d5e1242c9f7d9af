//! The resident cats' animation bookkeeping: which state follows which,
//! which Kitty image shows a given frame, the row the cats sit on, and the
//! Kitty layer that sends their frames once and then moves their
//! placements. (How long each state lasts and where a cat has walked to are
//! tracked in floating-point seconds and columns by the caller.)

use vstd::prelude::*;
use crate::kitty::{Placement, placement_output};
use crate::scenes::cafe::layout::Layout;
use crate::sprite::{Sprite, animation_transmit, frames_sendable, transmit_animation};

verus! {

/// Image id of the black cat's first image.
pub const BLACK_BASE: u32 = 10;

/// Image id of the white cat's first image.
pub const WHITE_BASE: u32 = 50;

/// Offset of the sleeping frames from a cat's first image.
pub const ASLEEP_OFF: u32 = 0;

/// Offset of the idle frames.
pub const IDLE_OFF: u32 = 10;

/// Offset of the walking frames.
pub const WALK_OFF: u32 = 20;

/// Offset of the mirrored walking frames.
pub const WALK_FLIP_OFF: u32 = 30;

/// What a cat is doing.
#[derive(Clone, Copy, PartialEq, Eq, Debug, Structural)]
pub enum CatState {
    Asleep,
    Idle,
    Walking,
}

/// The state after `s`: a cat wakes up, then walks, then falls asleep.
pub open spec fn next_spec(s: CatState) -> CatState {
    match s {
        CatState::Asleep => CatState::Idle,
        CatState::Idle => CatState::Walking,
        CatState::Walking => CatState::Asleep,
    }
}

/// The state that follows `s` when its time is up.
pub fn next_state(s: CatState) -> (r: CatState)
    ensures
        r == next_spec(s),
{
    match s {
        CatState::Asleep => CatState::Idle,
        CatState::Idle => CatState::Walking,
        CatState::Walking => CatState::Asleep,
    }
}

/// The first image id of the animation a cat with first image `base` shows
/// in state `s`. A walking cat whose drawings face the other way than it
/// walks (`moving_right` differs from `faces_right`) uses the mirrored
/// frames.
pub open spec fn animation_base_spec(base: u32, s: CatState, moving_right: bool, faces_right: bool) -> int {
    match s {
        CatState::Asleep => base + ASLEEP_OFF,
        CatState::Idle => base + IDLE_OFF,
        CatState::Walking => if moving_right != faces_right { base + WALK_FLIP_OFF } else { base + WALK_OFF },
    }
}

/// The image id of frame `frame` of an animation of `count` images starting
/// at `animation_base`: the frames repeat.
pub fn frame_id(base: u32, s: CatState, moving_right: bool, faces_right: bool, frame: usize, count: usize) -> (id: u32)
    requires
        count > 0,
        base + WALK_FLIP_OFF + count <= u32::MAX,
    ensures
        id == animation_base_spec(base, s, moving_right, faces_right) + frame % count,
{
    let first = match s {
        CatState::Asleep => base + ASLEEP_OFF,
        CatState::Idle => base + IDLE_OFF,
        CatState::Walking => if moving_right != faces_right { base + WALK_FLIP_OFF } else { base + WALK_OFF },
    };
    first + (frame % count) as u32
}

/// The row the cats' sprites start on: their height above the counter top,
/// or `None` when the screen is empty or the counter too high for them.
pub fn cat_row(l: &Layout) -> (r: Option<u16>)
    ensures
        r == (if l.w == 0 || l.counter_y < l.cat_rows { None } else { Some((l.counter_y - l.cat_rows) as u16) }),
{
    if l.w == 0 || l.counter_y < l.cat_rows {
        None
    } else {
        Some(l.counter_y - l.cat_rows)
    }
}

/// Law: after three state changes a cat is back where it started.
pub proof fn lemma_state_cycle(s: CatState)
    ensures
        next_spec(next_spec(next_spec(s))) == s,
{
}

/// Law: a walking cat always faces the way it walks. Its first image is
/// the mirrored walking frames exactly when the direction it walks differs
/// from the way its drawings face, and the plain walking frames otherwise;
/// reversing both shows the same images, and turning around switches sets.
pub proof fn lemma_cat_walk_faces_travel(base: u32, moving_right: bool, faces_right: bool)
    ensures
        animation_base_spec(base, CatState::Walking, moving_right, faces_right) == if moving_right != faces_right {
            base + WALK_FLIP_OFF
        } else {
            base + WALK_OFF
        },
        animation_base_spec(base, CatState::Walking, moving_right, faces_right) == animation_base_spec(
            base,
            CatState::Walking,
            !moving_right,
            !faces_right,
        ),
        animation_base_spec(base, CatState::Walking, moving_right, faces_right) != animation_base_spec(
            base,
            CatState::Walking,
            !moving_right,
            faces_right,
        ),
{
}

/// A cat's animation sheets, one sprite per frame.
pub struct CatSheets {
    pub asleep: Vec<Sprite>,
    pub idle: Vec<Sprite>,
    pub walk: Vec<Sprite>,
    pub walk_flip: Vec<Sprite>,
}

/// What sending a cat's four animations writes: asleep, idle, walking and
/// mirrored walking, each from its offset after the cat's first image id.
pub open spec fn sheets_transmit(s: CatSheets, base: u32) -> Seq<char> {
    animation_transmit(s.asleep@, (base + ASLEEP_OFF) as u32) + animation_transmit(s.idle@, (base + IDLE_OFF) as u32)
        + animation_transmit(s.walk@, (base + WALK_OFF) as u32)
        + animation_transmit(s.walk_flip@, (base + WALK_FLIP_OFF) as u32)
}

/// Whether every sheet of a cat with first image `base` can be sent.
pub open spec fn sheets_sendable(s: CatSheets, base: u32) -> bool {
    &&& frames_sendable(s.asleep@, base + ASLEEP_OFF)
    &&& frames_sendable(s.idle@, base + IDLE_OFF)
    &&& frames_sendable(s.walk@, base + WALK_OFF)
    &&& frames_sendable(s.walk_flip@, base + WALK_FLIP_OFF)
}

/// Sends every frame of a cat's four animations (see `sheets_transmit`).
pub fn transmit_sheets(out: &mut String, sheets: &CatSheets, base: u32)
    requires
        sheets_sendable(*sheets, base),
    ensures
        final(out)@ == old(out)@ + sheets_transmit(*sheets, base),
{
    let ghost start = out@;
    transmit_animation(out, &sheets.asleep, base + ASLEEP_OFF);
    transmit_animation(out, &sheets.idle, base + IDLE_OFF);
    transmit_animation(out, &sheets.walk, base + WALK_OFF);
    transmit_animation(out, &sheets.walk_flip, base + WALK_FLIP_OFF);
    proof {
        assert(out@ =~= start + sheets_transmit(*sheets, base));
    }
}

/// What one frame of the cats' layer writes, from its state before the
/// frame: nothing when the cats have no row; else both cats' frames when
/// they have not been sent yet, then each cat's placement that changed.
pub open spec fn cats_frame_output(
    transmitted: bool,
    black_last: Option<(u32, u16, u16)>,
    white_last: Option<(u32, u16, u16)>,
    l: Layout,
    black: CatSheets,
    white: CatSheets,
    black_id: u32,
    black_col: u16,
    white_id: u32,
    white_col: u16,
) -> Seq<char> {
    if l.w == 0 || l.counter_y < l.cat_rows {
        Seq::empty()
    } else {
        let row = (l.counter_y - l.cat_rows) as u16;
        (if transmitted { Seq::empty() } else { sheets_transmit(black, BLACK_BASE) + sheets_transmit(white, WHITE_BASE) })
            + placement_output(black_last, black_id, black_col, row, l.cat_cols, l.cat_rows)
            + placement_output(white_last, white_id, white_col, row, l.cat_cols, l.cat_rows)
    }
}

/// The cats' Kitty layer: whether their frames have been sent, and where
/// each cat is placed.
pub struct CatsLayer {
    pub transmitted: bool,
    pub black: Placement,
    pub white: Placement,
}

impl CatsLayer {
    /// Nothing sent or placed yet.
    pub fn new() -> (c: CatsLayer)
        ensures
            !c.transmitted,
            c.black@ == None::<(u32, u16, u16)>,
            c.white@ == None::<(u32, u16, u16)>,
    {
        CatsLayer { transmitted: false, black: Placement::new(), white: Placement::new() }
    }

    /// After a resize: both cats are placed again at the new geometry (the
    /// frames already sent stay cached).
    pub fn init(&mut self)
        ensures
            final(self).transmitted == old(self).transmitted,
            final(self).black@ == None::<(u32, u16, u16)>,
            final(self).white@ == None::<(u32, u16, u16)>,
    {
        self.black.reset();
        self.white.reset();
    }

    /// One frame of the cats' layer: unless the cats have no row, sends both
    /// cats' frames once, then shows image `black_id` at column `black_col`
    /// and `white_id` at `white_col` on the cats' row, writing only what
    /// changed.
    pub fn post_draw(
        &mut self,
        out: &mut String,
        l: &Layout,
        black: &CatSheets,
        white: &CatSheets,
        black_id: u32,
        black_col: u16,
        white_id: u32,
        white_col: u16,
    )
        requires
            sheets_sendable(*black, BLACK_BASE),
            sheets_sendable(*white, WHITE_BASE),
            black_col < u16::MAX,
            white_col < u16::MAX,
            !(l.w == 0 || l.counter_y < l.cat_rows) ==> l.counter_y - l.cat_rows < u16::MAX,
        ensures
            final(out)@ == old(out)@ + cats_frame_output(old(self).transmitted, old(self).black@, old(self).white@, *l,
                *black, *white, black_id, black_col, white_id, white_col),
            (l.w == 0 || l.counter_y < l.cat_rows) ==> *final(self) == *old(self),
            !(l.w == 0 || l.counter_y < l.cat_rows) ==> {
                &&& final(self).transmitted
                &&& final(self).black@ == Some((black_id, black_col, (l.counter_y - l.cat_rows) as u16))
                &&& final(self).white@ == Some((white_id, white_col, (l.counter_y - l.cat_rows) as u16))
            },
    {
        let row = match cat_row(l) {
            Some(r) => r,
            None => {
                assert(old(out)@ + Seq::<char>::empty() =~= old(out)@);
                return;
            },
        };
        let ghost start = out@;
        if !self.transmitted {
            transmit_sheets(out, black, BLACK_BASE);
            transmit_sheets(out, white, WHITE_BASE);
            self.transmitted = true;
        }
        let ghost mid = out@;
        self.black.update(out, black_id, black_col, row, l.cat_cols, l.cat_rows);
        self.white.update(out, white_id, white_col, row, l.cat_cols, l.cat_rows);
        proof {
            assert(out@ =~= old(out)@ + cats_frame_output(old(self).transmitted, old(self).black@, old(self).white@, *l,
                *black, *white, black_id, black_col, white_id, white_col));
        }
    }
}

/// Law: once a frame of the cats' layer has been sent, a next frame that
/// shows the same images at the same columns sends nothing: the frames went
/// out once and both placements are unchanged.
pub proof fn lemma_cats_quiet(
    l: Layout,
    black: CatSheets,
    white: CatSheets,
    black_id: u32,
    black_col: u16,
    white_id: u32,
    white_col: u16,
)
    requires
        !(l.w == 0 || l.counter_y < l.cat_rows),
    ensures
        ({
            let row = (l.counter_y - l.cat_rows) as u16;
            cats_frame_output(true, Some((black_id, black_col, row)), Some((white_id, white_col, row)), l, black, white,
                black_id, black_col, white_id, white_col) == Seq::<char>::empty()
        }),
{
    assert(Seq::<char>::empty() + Seq::<char>::empty() + Seq::<char>::empty() =~= Seq::<char>::empty());
}

} // verus!
