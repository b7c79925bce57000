//! The buttons that the player holds during a tick.
use vstd::prelude::*;

verus! {

/// Which logical buttons are held this tick.
#[derive(Clone, Copy, Debug, PartialEq, Eq, Structural)]
pub struct Controls {
    pub up: bool,
    pub down: bool,
    pub left: bool,
    pub right: bool,
    pub primary_fire: bool,
    pub secondary_fire: bool,
}

impl Controls {
    /// No button held.
    pub fn idle() -> (r: Controls)
        ensures
            !r.up && !r.down && !r.left && !r.right && !r.primary_fire && !r.secondary_fire,
    {
        Controls {
            up: false,
            down: false,
            left: false,
            right: false,
            primary_fire: false,
            secondary_fire: false,
        }
    }
}

} // verus!
