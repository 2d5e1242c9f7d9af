//! The meadow's three friends (capybara, sloth, honey badger) as Kitty
//! sprites: which image shows a given frame, and the layer that sends their
//! frames once and then moves their placements. (How long each state lasts
//! and where an animal has ambled to are tracked in floating-point seconds
//! and columns by the caller.)

use vstd::prelude::*;
use crate::kitty::{Placement, placement_output};
use crate::scenes::meadow::layout::Layout;
use crate::sprite::{Sprite, animation_transmit, frames_sendable, transmit_animation};

verus! {

/// Image id of the capybara's first image.
pub const CAPY_BASE: u32 = 100;

/// Image id of the sloth's first image.
pub const SLOTH_BASE: u32 = 200;

/// Image id of the honey badger's first image.
pub const BADGER_BASE: u32 = 300;

/// Offset of the sleeping frames from an animal's first image.
pub const ASLEEP_OFF: u32 = 0;

/// Offset of the idle frames.
pub const IDLE_OFF: u32 = 10;

/// Offset of the walking frames.
pub const WALK_OFF: u32 = 20;

/// Offset of the mirrored walking frames.
pub const WALK_FLIP_OFF: u32 = 30;

/// Offset of the eating frames.
pub const EAT_OFF: u32 = 40;

/// Width of an animal's sprite in cells.
pub const ANIMAL_COLS: u16 = 10;

/// Height of an animal's sprite in cells.
pub const ANIMAL_ROWS: u16 = 5;

/// What an animal is doing.
#[derive(Clone, Copy, PartialEq, Eq, Debug, Structural)]
pub enum CritterState {
    Asleep,
    Idle,
    Walking,
    Eating,
}

/// The state after `s` when its time is up: an animal wakes up, then
/// reaches for the hunny if it has an eating animation (`eats`) or goes for
/// a wander, and afterwards falls asleep.
pub open spec fn critter_next_spec(s: CritterState, eats: bool) -> CritterState {
    match s {
        CritterState::Asleep => CritterState::Idle,
        CritterState::Idle => if eats { CritterState::Eating } else { CritterState::Walking },
        CritterState::Walking => CritterState::Asleep,
        CritterState::Eating => CritterState::Asleep,
    }
}

/// The state that follows `s` (see `critter_next_spec`).
pub fn critter_next(s: CritterState, eats: bool) -> (r: CritterState)
    ensures
        r == critter_next_spec(s, eats),
{
    match s {
        CritterState::Asleep => CritterState::Idle,
        CritterState::Idle => if eats { CritterState::Eating } else { CritterState::Walking },
        CritterState::Walking => CritterState::Asleep,
        CritterState::Eating => CritterState::Asleep,
    }
}

/// The first image id of the animation an animal with first image `base`
/// shows in state `s`; a walking animal whose drawings face the other way
/// than it walks uses the mirrored frames.
pub open spec fn critter_base_spec(base: u32, s: CritterState, moving_right: bool, faces_right: bool) -> int {
    match s {
        CritterState::Asleep => base + ASLEEP_OFF,
        CritterState::Idle => base + IDLE_OFF,
        CritterState::Walking => if moving_right != faces_right { base + WALK_FLIP_OFF } else { base + WALK_OFF },
        CritterState::Eating => base + EAT_OFF,
    }
}

/// The image id of frame `frame` of the current animation of `count`
/// images: the frames repeat (an empty animation counts as one image).
pub fn critter_frame_id(base: u32, s: CritterState, moving_right: bool, faces_right: bool, frame: usize, count: usize) -> (id: u32)
    requires
        base + EAT_OFF + count <= u32::MAX,
    ensures
        id == critter_base_spec(base, s, moving_right, faces_right) + frame % (if count == 0 { 1usize } else { count }),
{
    let first = match s {
        CritterState::Asleep => base + ASLEEP_OFF,
        CritterState::Idle => base + IDLE_OFF,
        CritterState::Walking => if moving_right != faces_right { base + WALK_FLIP_OFF } else { base + WALK_OFF },
        CritterState::Eating => base + EAT_OFF,
    };
    let n: usize = if count == 0 { 1 } else { count };
    first + (frame % n) as u32
}

/// An animal's animation sheets, one sprite per frame (an animation it
/// lacks is empty).
pub struct CritterSheets {
    pub asleep: Vec<Sprite>,
    pub idle: Vec<Sprite>,
    pub walk: Vec<Sprite>,
    pub walk_flip: Vec<Sprite>,
    pub eat: Vec<Sprite>,
}

/// What sending an animal's five animations writes: asleep, idle, walking,
/// mirrored walking and eating, each from its offset after `base`.
pub open spec fn critter_transmit(s: CritterSheets, base: u32) -> Seq<char> {
    animation_transmit(s.asleep@, (base + ASLEEP_OFF) as u32) + animation_transmit(s.idle@, (base + IDLE_OFF) as u32)
        + animation_transmit(s.walk@, (base + WALK_OFF) as u32)
        + animation_transmit(s.walk_flip@, (base + WALK_FLIP_OFF) as u32)
        + animation_transmit(s.eat@, (base + EAT_OFF) as u32)
}

/// Whether every sheet of an animal with first image `base` can be sent.
pub open spec fn critter_sendable(s: CritterSheets, base: u32) -> bool {
    &&& frames_sendable(s.asleep@, base + ASLEEP_OFF)
    &&& frames_sendable(s.idle@, base + IDLE_OFF)
    &&& frames_sendable(s.walk@, base + WALK_OFF)
    &&& frames_sendable(s.walk_flip@, base + WALK_FLIP_OFF)
    &&& frames_sendable(s.eat@, base + EAT_OFF)
}

/// Sends every frame of an animal's five animations (see `critter_transmit`).
pub fn transmit_critter(out: &mut String, sheets: &CritterSheets, base: u32)
    requires
        critter_sendable(*sheets, base),
    ensures
        final(out)@ == old(out)@ + critter_transmit(*sheets, base),
{
    let ghost start = out@;
    transmit_animation(out, &sheets.asleep, base + ASLEEP_OFF);
    transmit_animation(out, &sheets.idle, base + IDLE_OFF);
    transmit_animation(out, &sheets.walk, base + WALK_OFF);
    transmit_animation(out, &sheets.walk_flip, base + WALK_FLIP_OFF);
    transmit_animation(out, &sheets.eat, base + EAT_OFF);
    proof {
        assert(out@ =~= start + critter_transmit(*sheets, base));
    }
}

/// Where each animal should show: `(image id, column)`.
#[derive(Clone, Copy, PartialEq, Eq, Debug)]
pub struct CritterShots {
    pub capy: (u32, u16),
    pub sloth: (u32, u16),
    pub badger: (u32, u16),
}

/// What one frame of the animals' layer writes, from its state before the
/// frame: nothing when the animals have no row; else all frames (capybara,
/// sloth, badger) when they have not been sent since the last resize, then
/// each animal's placement that changed, the sloth last so that it stands in
/// front.
pub open spec fn animals_frame_output(
    transmitted: bool,
    capy_last: Option<(u32, u16, u16)>,
    sloth_last: Option<(u32, u16, u16)>,
    badger_last: Option<(u32, u16, u16)>,
    l: Layout,
    capy: CritterSheets,
    sloth: CritterSheets,
    badger: CritterSheets,
    shots: CritterShots,
) -> Seq<char> {
    if l.w == 0 || l.ground_y < l.animal_rows {
        Seq::empty()
    } else {
        let row = (l.ground_y - l.animal_rows) as u16;
        (if transmitted { Seq::empty() } else { all_transmit(capy, sloth, badger) })
            + placement_output(badger_last, shots.badger.0, shots.badger.1, row, ANIMAL_COLS, ANIMAL_ROWS)
            + placement_output(capy_last, shots.capy.0, shots.capy.1, row, ANIMAL_COLS, ANIMAL_ROWS)
            + placement_output(sloth_last, shots.sloth.0, shots.sloth.1, row, ANIMAL_COLS, ANIMAL_ROWS)
    }
}

/// The animals' Kitty layer: whether their frames have been sent since the
/// last resize, and where each animal is placed.
pub struct AnimalsLayer {
    pub transmitted: bool,
    pub capy: Placement,
    pub sloth: Placement,
    pub badger: Placement,
}

impl AnimalsLayer {
    /// Nothing sent or placed yet.
    pub fn new() -> (a: AnimalsLayer)
        ensures
            !a.transmitted,
            a.capy@ == None::<(u32, u16, u16)>,
            a.sloth@ == None::<(u32, u16, u16)>,
            a.badger@ == None::<(u32, u16, u16)>,
    {
        AnimalsLayer { transmitted: false, capy: Placement::new(), sloth: Placement::new(), badger: Placement::new() }
    }

    /// After a resize: the terminal dropped the images, so they are sent
    /// again, and every animal is placed again at its new home.
    pub fn init(&mut self)
        ensures
            !final(self).transmitted,
            final(self).capy@ == None::<(u32, u16, u16)>,
            final(self).sloth@ == None::<(u32, u16, u16)>,
            final(self).badger@ == None::<(u32, u16, u16)>,
    {
        self.capy.reset();
        self.sloth.reset();
        self.badger.reset();
        self.transmitted = false;
    }

    /// One frame of the animals' layer (see `animals_frame_output`).
    #[verifier::rlimit(40)]
    pub fn post_draw(
        &mut self,
        out: &mut String,
        l: &Layout,
        capy: &CritterSheets,
        sloth: &CritterSheets,
        badger: &CritterSheets,
        shots: CritterShots,
    )
        requires
            critter_sendable(*capy, CAPY_BASE),
            critter_sendable(*sloth, SLOTH_BASE),
            critter_sendable(*badger, BADGER_BASE),
            shots.capy.1 < u16::MAX,
            shots.sloth.1 < u16::MAX,
            shots.badger.1 < u16::MAX,
            !(l.w == 0 || l.ground_y < l.animal_rows) ==> l.ground_y - l.animal_rows < u16::MAX,
        ensures
            final(out)@ == old(out)@ + animals_frame_output(old(self).transmitted, old(self).capy@, old(self).sloth@,
                old(self).badger@, *l, *capy, *sloth, *badger, shots),
            (l.w == 0 || l.ground_y < l.animal_rows) ==> *final(self) == *old(self),
            !(l.w == 0 || l.ground_y < l.animal_rows) ==> {
                let row = (l.ground_y - l.animal_rows) as u16;
                &&& final(self).transmitted
                &&& final(self).capy@ == Some((shots.capy.0, shots.capy.1, row))
                &&& final(self).sloth@ == Some((shots.sloth.0, shots.sloth.1, row))
                &&& final(self).badger@ == Some((shots.badger.0, shots.badger.1, row))
            },
    {
        if l.w == 0 || l.ground_y < l.animal_rows {
            assert(old(out)@ + Seq::<char>::empty() =~= old(out)@);
            return;
        }
        let row = l.animal_row();
        let ghost start = out@;
        if !self.transmitted {
            transmit_all(out, capy, sloth, badger);
            self.transmitted = true;
        }
        let ghost mid = out@;
        assert(mid =~= start + (if old(self).transmitted { Seq::empty() } else { all_transmit(*capy, *sloth, *badger) }));
        self.place_all(out, shots, row);
    }

    fn place_all(&mut self, out: &mut String, shots: CritterShots, row: u16)
        requires
            shots.capy.1 < u16::MAX,
            shots.sloth.1 < u16::MAX,
            shots.badger.1 < u16::MAX,
            row < u16::MAX,
        ensures
            final(out)@ == old(out)@ + placement_output(old(self).badger@, shots.badger.0, shots.badger.1, row,
                ANIMAL_COLS, ANIMAL_ROWS) + placement_output(old(self).capy@, shots.capy.0, shots.capy.1, row,
                ANIMAL_COLS, ANIMAL_ROWS) + placement_output(old(self).sloth@, shots.sloth.0, shots.sloth.1, row,
                ANIMAL_COLS, ANIMAL_ROWS),
            final(self).transmitted == old(self).transmitted,
            final(self).capy@ == Some((shots.capy.0, shots.capy.1, row)),
            final(self).sloth@ == Some((shots.sloth.0, shots.sloth.1, row)),
            final(self).badger@ == Some((shots.badger.0, shots.badger.1, row)),
    {
        let ghost start = out@;
        self.badger.update(out, shots.badger.0, shots.badger.1, row, ANIMAL_COLS, ANIMAL_ROWS);
        self.capy.update(out, shots.capy.0, shots.capy.1, row, ANIMAL_COLS, ANIMAL_ROWS);
        self.sloth.update(out, shots.sloth.0, shots.sloth.1, row, ANIMAL_COLS, ANIMAL_ROWS);
        assert(out@ =~= start + placement_output(old(self).badger@, shots.badger.0, shots.badger.1, row,
            ANIMAL_COLS, ANIMAL_ROWS) + placement_output(old(self).capy@, shots.capy.0, shots.capy.1, row,
            ANIMAL_COLS, ANIMAL_ROWS) + placement_output(old(self).sloth@, shots.sloth.0, shots.sloth.1, row,
            ANIMAL_COLS, ANIMAL_ROWS));
    }
}

/// What sending all three animals' frames writes: capybara, sloth, badger.
pub open spec fn all_transmit(capy: CritterSheets, sloth: CritterSheets, badger: CritterSheets) -> Seq<char> {
    critter_transmit(capy, CAPY_BASE) + critter_transmit(sloth, SLOTH_BASE) + critter_transmit(badger, BADGER_BASE)
}

fn transmit_all(out: &mut String, capy: &CritterSheets, sloth: &CritterSheets, badger: &CritterSheets)
    requires
        critter_sendable(*capy, CAPY_BASE),
        critter_sendable(*sloth, SLOTH_BASE),
        critter_sendable(*badger, BADGER_BASE),
    ensures
        final(out)@ == old(out)@ + all_transmit(*capy, *sloth, *badger),
{
    let ghost start = out@;
    transmit_critter(out, capy, CAPY_BASE);
    transmit_critter(out, sloth, SLOTH_BASE);
    transmit_critter(out, badger, BADGER_BASE);
    assert(out@ =~= start + all_transmit(*capy, *sloth, *badger));
}

/// Law: an animal without an eating animation never eats, and every animal
/// is back asleep within three state changes of waking up.
pub proof fn lemma_critter_cycle(s: CritterState, eats: bool)
    ensures
        !eats ==> critter_next_spec(s, eats) != CritterState::Eating,
        critter_next_spec(critter_next_spec(critter_next_spec(CritterState::Asleep, eats), eats), eats) == CritterState::Asleep,
{
}

/// Law: once a frame of the animals' layer has been sent, a next frame
/// that shows the same images at the same columns sends nothing.
pub proof fn lemma_animals_quiet(
    l: Layout,
    capy: CritterSheets,
    sloth: CritterSheets,
    badger: CritterSheets,
    shots: CritterShots,
)
    requires
        !(l.w == 0 || l.ground_y < l.animal_rows),
    ensures
        ({
            let row = (l.ground_y - l.animal_rows) as u16;
            animals_frame_output(true, Some((shots.capy.0, shots.capy.1, row)), Some((shots.sloth.0, shots.sloth.1, row)),
                Some((shots.badger.0, shots.badger.1, row)), l, capy, sloth, badger, shots) == Seq::<char>::empty()
        }),
{
    assert(Seq::<char>::empty() + Seq::<char>::empty() + Seq::<char>::empty() + Seq::<char>::empty()
        =~= Seq::<char>::empty());
}

/// Law: a walking animal always faces the way it walks. Its first image is
/// the mirrored walking frames exactly when the direction it walks differs
/// from the way its drawings face, and the plain walking frames otherwise;
/// so reversing both the direction and the drawings' facing shows the same
/// images, and turning around switches between the two sets.
pub proof fn lemma_walk_faces_travel(base: u32, moving_right: bool, faces_right: bool)
    ensures
        critter_base_spec(base, CritterState::Walking, moving_right, faces_right) == if moving_right != faces_right {
            base + WALK_FLIP_OFF
        } else {
            base + WALK_OFF
        },
        critter_base_spec(base, CritterState::Walking, moving_right, faces_right) == critter_base_spec(
            base,
            CritterState::Walking,
            !moving_right,
            !faces_right,
        ),
        critter_base_spec(base, CritterState::Walking, moving_right, faces_right) != critter_base_spec(
            base,
            CritterState::Walking,
            !moving_right,
            faces_right,
        ),
        critter_base_spec(base, CritterState::Walking, faces_right, faces_right) == base + WALK_OFF,
{
}

/// Law: the image an animal shows lies in its own block of ids: from its
/// first image on, below the next animal's, and inside the current
/// animation's frames.
pub proof fn lemma_frame_id_in_animation(base: u32, s: CritterState, moving_right: bool, faces_right: bool, frame: usize, count: usize)
    requires
        count > 0,
    ensures
        ({
            let first = critter_base_spec(base, s, moving_right, faces_right);
            &&& base <= first <= base + EAT_OFF
            &&& first <= first + frame % count < first + count
        }),
{
}

} // verus!
