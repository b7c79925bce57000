//! Random draws for the spawners.
use vstd::prelude::*;
use crate::config::{
    BUBBLE_SPEED_MAX, BUBBLE_SPEED_MIN, BUBBLE_VARIANTS, DIRECTION_SCALE, OBSTACLE_INTERVAL_MAX,
    OBSTACLE_SPAWN_HALF_WIDTH, OBSTACLE_SPEED_MAX, OBSTACLE_SPEED_MIN,
};

verus! {

/// Relies on `fastrand::u64`: a value drawn from `lo..hi`, which lies in that
/// range; the call panics on an empty range, so the range must not be empty.
#[verifier::external_body]
fn draw_in(lo: u64, hi: u64) -> (r: u64)
    requires
        lo < hi,
    ensures
        lo <= r < hi,
{
    fastrand::u64(lo..hi)
}

/// Relies on `fastrand::bool`: a coin flip.
#[verifier::external_body]
fn coin() -> bool {
    fastrand::bool()
}

/// The random values that one tick's spawners may use.
#[derive(Clone, Copy, Debug, PartialEq, Eq, Structural)]
pub struct SpawnDraws {
    /// Distance of a new obstacle from the vertical centre line.
    pub obstacle_offset: u64,
    /// Whether a new obstacle appears left of the centre line.
    pub obstacle_left: bool,
    pub obstacle_speed: u64,
    /// Time until the obstacle after next.
    pub obstacle_interval: u64,
    /// Direction of a new bubble, before signs.
    pub bubble_dx: u64,
    pub bubble_dy: u64,
    pub bubble_neg_x: bool,
    pub bubble_neg_y: bool,
    pub bubble_speed: u64,
    pub bubble_variant: u64,
}

impl SpawnDraws {
    /// Every value lies in the range it is drawn from.
    pub open spec fn in_range(self) -> bool {
        &&& self.obstacle_offset < OBSTACLE_SPAWN_HALF_WIDTH
        &&& OBSTACLE_SPEED_MIN <= self.obstacle_speed < OBSTACLE_SPEED_MAX
        &&& self.obstacle_interval < OBSTACLE_INTERVAL_MAX
        &&& self.bubble_dx < DIRECTION_SCALE
        &&& self.bubble_dy < DIRECTION_SCALE
        &&& BUBBLE_SPEED_MIN <= self.bubble_speed < BUBBLE_SPEED_MAX
        &&& self.bubble_variant < BUBBLE_VARIANTS
    }

    /// Draws every value uniformly from its range.
    pub fn draw() -> (r: SpawnDraws)
        ensures
            r.in_range(),
    {
        SpawnDraws {
            obstacle_offset: draw_in(0, OBSTACLE_SPAWN_HALF_WIDTH),
            obstacle_left: coin(),
            obstacle_speed: draw_in(OBSTACLE_SPEED_MIN, OBSTACLE_SPEED_MAX),
            obstacle_interval: draw_in(0, OBSTACLE_INTERVAL_MAX),
            bubble_dx: draw_in(0, DIRECTION_SCALE),
            bubble_dy: draw_in(0, DIRECTION_SCALE),
            bubble_neg_x: coin(),
            bubble_neg_y: coin(),
            bubble_speed: draw_in(BUBBLE_SPEED_MIN, BUBBLE_SPEED_MAX),
            bubble_variant: draw_in(0, BUBBLE_VARIANTS),
        }
    }
}

} // verus!
