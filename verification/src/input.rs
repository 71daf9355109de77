//! The per-frame input snapshot and the rising-edge detector for the spawn
//! trigger (fire once per discrete press, not once per frame while held).

use vstd::prelude::*;

verus! {

/// What the frame driver sampled for one frame: the level-triggered
/// directional keys and the already edge-detected spawn trigger.
#[derive(Clone, Copy, Debug, PartialEq, Eq, Structural)]
pub struct InputSnapshot {
    pub up: bool,
    pub down: bool,
    pub left: bool,
    pub right: bool,
    pub spawn_just_pressed: bool,
}

impl InputSnapshot {
    /// No directional key is active.
    pub open spec fn idle(self) -> bool {
        !self.up && !self.down && !self.left && !self.right
    }
}

/// Remembers whether the spawn key was pressed in the previous frame, so a
/// held key triggers exactly once.
pub struct SpawnEdge {
    pub was_pressed: bool,
}

impl SpawnEdge {
    /// A detector for a session start, before any frame: the key counts as
    /// released, so a press in the very first frame is a rising edge.
    pub fn new() -> (e: SpawnEdge)
        ensures
            !e.was_pressed,
    {
        SpawnEdge { was_pressed: false }
    }

    /// Feeds one frame's level-triggered sample and reports whether this
    /// frame is the rising edge of a discrete press.
    pub fn rising_edge(&mut self, pressed: bool) -> (just_pressed: bool)
        ensures
            just_pressed == (pressed && !old(self).was_pressed),
            final(self).was_pressed == pressed,
    {
        let edge = pressed && !self.was_pressed;
        self.was_pressed = pressed;
        edge
    }
}

} // verus!
