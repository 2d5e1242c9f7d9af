//! The render loop's decisions: frame pacing, input handling and the time
//! step handed to the scene. The caller owns the terminal and the clock; it
//! reports what happened and carries out the returned action.

use vstd::prelude::*;
use crate::config::EngineConfig;

verus! {

/// Nanoseconds in a millisecond.
pub const NANOS_PER_MILLI: u64 = 1_000_000;

/// Longest time step handed to a scene: 100 ms, so a stall does not make
/// the animation jump.
pub const MAX_STEP_NANOS: u64 = 100_000_000;

/// What the terminal reported while the loop waited.
#[derive(Clone, Copy, PartialEq, Eq, Debug, Structural)]
pub enum EngineEvent {
    /// A key went down.
    KeyPress,
    /// A key was released or repeated.
    KeyOther,
    /// The terminal changed size.
    Resize,
    /// Anything else (mouse, focus, paste).
    Other,
}

/// What the caller does after an event.
#[derive(Clone, Copy, PartialEq, Eq, Debug, Structural)]
pub enum EngineAction {
    /// Leave the loop and restore the terminal.
    Exit,
    /// Re-initialize the scene with the terminal's new size.
    Reinit,
    /// Keep going.
    Continue,
}

/// Frame pacing state: the target frame rate.
pub struct Engine {
    fps: u32,
    show_cursor: bool,
}

impl Engine {
    /// The frame rate the engine paces to.
    pub closed spec fn spec_fps(&self) -> u32 {
        self.fps
    }

    /// Whether the terminal's cursor stays visible while the scene runs.
    pub closed spec fn cursor_shown(&self) -> bool {
        self.show_cursor
    }

    /// An engine running at the configured frame rate (at least 1 fps), with
    /// the cursor hidden.
    pub fn new(config: &EngineConfig) -> (e: Engine)
        ensures
            e.spec_fps() == (if config.fps < 1 { 1 } else { config.fps }),
            e.spec_fps() >= 1,
            !e.cursor_shown(),
    {
        Engine { fps: if config.fps < 1 { 1 } else { config.fps }, show_cursor: false }
    }

    /// Whether the cursor stays visible while the scene runs.
    pub fn show_cursor(&self) -> (r: bool)
        ensures
            r == self.cursor_shown(),
    {
        self.show_cursor
    }

    /// The frame rate the engine paces to.
    pub fn fps(&self) -> (r: u32)
        ensures
            r == self.spec_fps(),
    {
        self.fps
    }

    /// Time between frames: `1000 / fps` whole milliseconds, in nanoseconds.
    pub open spec fn tick_nanos(&self) -> nat {
        ((1000int / (self.spec_fps() as int)) * NANOS_PER_MILLI) as nat
    }

    /// Time between frames, in nanoseconds.
    pub fn tick_rate_nanos(&self) -> (r: u64)
        requires
            self.spec_fps() >= 1,
        ensures
            r == self.tick_nanos(),
    {
        (1000 / self.fps as u64) * NANOS_PER_MILLI
    }

    /// How long to wait for input, `elapsed` nanoseconds after the last
    /// frame: the rest of the frame interval, or nothing when it is over.
    pub fn poll_timeout(&self, elapsed: u64) -> (r: u64)
        requires
            self.spec_fps() >= 1,
        ensures
            r == (if elapsed >= self.tick_nanos() { 0 } else { self.tick_nanos() - elapsed }),
    {
        self.tick_rate_nanos().saturating_sub(elapsed)
    }

    /// What to do about an event: any key press exits, a resize
    /// re-initializes the scene, everything else is ignored.
    pub fn on_event(&self, event: EngineEvent) -> (a: EngineAction)
        ensures
            a == (match event {
                EngineEvent::KeyPress => EngineAction::Exit,
                EngineEvent::Resize => EngineAction::Reinit,
                _ => EngineAction::Continue,
            }),
    {
        match event {
            EngineEvent::KeyPress => EngineAction::Exit,
            EngineEvent::Resize => EngineAction::Reinit,
            _ => EngineAction::Continue,
        }
    }

    /// Whether a new frame is due `elapsed` nanoseconds after the last one.
    pub fn frame_due(&self, elapsed: u64) -> (r: bool)
        requires
            self.spec_fps() >= 1,
        ensures
            r == (elapsed >= self.tick_nanos()),
    {
        elapsed >= self.tick_rate_nanos()
    }

    /// The time step for a frame that comes `elapsed` nanoseconds after the
    /// previous one, capped at 100 ms.
    pub fn step_nanos(&self, elapsed: u64) -> (r: u64)
        ensures
            r == (if elapsed < MAX_STEP_NANOS { elapsed } else { MAX_STEP_NANOS }),
    {
        if elapsed < MAX_STEP_NANOS { elapsed } else { MAX_STEP_NANOS }
    }
}

/// A frame is due exactly when the wait for input has run out.
pub proof fn lemma_due_iff_no_wait(e: Engine, elapsed: u64)
    ensures
        (elapsed >= e.tick_nanos()) == ((if elapsed >= e.tick_nanos() { 0 } else { e.tick_nanos() - elapsed }) == 0),
{
}

} // verus!
