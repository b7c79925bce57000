//! The player's aircraft and its movement.
use vstd::prelude::*;
use crate::config::{
    AIRCRAFT_HEIGHT, AIRCRAFT_MAX_X, AIRCRAFT_MAX_Y, AIRCRAFT_SPEED, AIRCRAFT_START_Y,
    AIRCRAFT_WIDTH,
};
use crate::controls::Controls;
use crate::geometry::{Point, Size};
use crate::motion::{clamp, distance, spec_distance, DISTANCE_BOUND};

verus! {

/// The one aircraft, steered by the player.
#[derive(Clone, Copy, Debug, PartialEq, Eq, Structural)]
pub struct Aircraft {
    pub pos: Point,
    /// Speed along each pressed axis.
    pub speed: u64,
}

pub open spec fn aircraft_size() -> Size {
    Size { w: AIRCRAFT_WIDTH, h: AIRCRAFT_HEIGHT }
}

/// One coordinate after a tick: moved forward by `d` if `fwd` is held, back by
/// `d` if `back` is held, then clamped to `[-max, max]`.
pub open spec fn steer(v: int, fwd: bool, back: bool, d: int, max: int) -> int {
    clamp(v + (if fwd { d } else { 0 }) - (if back { d } else { 0 }), -max, max)
}

fn steer_exec(v: i64, fwd: bool, back: bool, d: u128, max: i64) -> (r: i64)
    requires
        d < DISTANCE_BOUND,
        max >= 0,
    ensures
        r == steer(v as int, fwd, back, d as int, max as int),
{
    let mut s: i128 = v as i128;
    if fwd {
        s = s + d as i128;
    }
    if back {
        s = s - d as i128;
    }
    if s < -(max as i128) {
        -max
    } else if s > max as i128 {
        max
    } else {
        s as i64
    }
}

impl Aircraft {
    /// The aircraft at startup: centred horizontally, near the bottom.
    pub open spec fn new_spec() -> Aircraft {
        Aircraft { pos: Point { x: 0, y: AIRCRAFT_START_Y }, speed: AIRCRAFT_SPEED }
    }

    pub fn new() -> (r: Aircraft)
        ensures
            r == Aircraft::new_spec(),
            r.pos == (Point { x: 0, y: AIRCRAFT_START_Y }),
            r.speed == AIRCRAFT_SPEED,
    {
        Aircraft { pos: Point { x: 0, y: AIRCRAFT_START_Y }, speed: AIRCRAFT_SPEED }
    }

    pub fn size() -> (r: Size)
        ensures
            r == aircraft_size(),
    {
        Size { w: AIRCRAFT_WIDTH, h: AIRCRAFT_HEIGHT }
    }

    /// The aircraft after a tick of `dt` with `c` held: each pressed direction
    /// moves it by `speed × dt`, and it stays wholly inside the window.
    pub open spec fn spec_advance(self, c: Controls, dt: int) -> Aircraft {
        let d = spec_distance(self.speed as int, dt);
        Aircraft {
            pos: Point {
                x: steer(self.pos.x as int, c.right, c.left, d, AIRCRAFT_MAX_X as int) as i64,
                y: steer(self.pos.y as int, c.up, c.down, d, AIRCRAFT_MAX_Y as int) as i64,
            },
            speed: self.speed,
        }
    }

    pub fn advance(&mut self, c: &Controls, dt: u64)
        ensures
            *final(self) == old(self).spec_advance(*c, dt as int),
    {
        let d: u128 = distance(self.speed, dt);
        self.pos.x = steer_exec(self.pos.x, c.right, c.left, d, AIRCRAFT_MAX_X);
        self.pos.y = steer_exec(self.pos.y, c.up, c.down, d, AIRCRAFT_MAX_Y);
    }
}

/// Holding only Up for `dt` microseconds from the centre line at the standard
/// speed raises the aircraft by 500 units per second, until its top edge meets
/// the top of the window: `y = min(500 t, 460)` units, with `t = dt / 10^6`.
pub proof fn lemma_rise_from_centre(a: Aircraft, dt: int)
    requires
        a.pos.y == 0,
        a.speed == AIRCRAFT_SPEED,
        dt >= 0,
    ensures
        a.spec_advance(
            Controls {
                up: true,
                down: false,
                left: false,
                right: false,
                primary_fire: false,
                secondary_fire: false,
            },
            dt,
        ).pos.y == if dt / 2 < 460_000 { dt / 2 } else { 460_000 },
{
    assert(500_000 * dt / 1_000_000 == dt / 2) by (nonlinear_arith)
        requires dt >= 0;
}

/// Only Up held.
pub open spec fn up_only() -> Controls {
    Controls {
        up: true,
        down: false,
        left: false,
        right: false,
        primary_fire: false,
        secondary_fire: false,
    }
}

/// The aircraft after one tick with only Up held for each length in `dts`.
pub open spec fn rise_ticks(a: Aircraft, dts: Seq<nat>) -> Aircraft
    decreases dts.len(),
{
    if dts.len() == 0 {
        a
    } else {
        rise_ticks(a.spec_advance(up_only(), dts[0] as int), dts.drop_first())
    }
}

/// Sum of the halves (rounded down) of the tick lengths: the rise in
/// milli-units at 500 units per second.
pub open spec fn half_sum(dts: Seq<nat>) -> int
    decreases dts.len(),
{
    if dts.len() == 0 {
        0
    } else {
        dts[0] as int / 2 + half_sum(dts.drop_first())
    }
}

/// Total length of the ticks.
pub open spec fn total_time(dts: Seq<nat>) -> int
    decreases dts.len(),
{
    if dts.len() == 0 {
        0
    } else {
        dts[0] + total_time(dts.drop_first())
    }
}

/// Holding only Up over any number of ticks from a height in `[0, 460]`
/// units at the standard speed raises the aircraft by 500 units per second of
/// each tick (rounded down to a milli-unit per tick) until it meets the top
/// edge; with ticks of whole even microseconds the rise is exactly
/// `min(500 t, 460)` units from the centre line, `t` the total time.
pub proof fn lemma_rise_over_ticks(a: Aircraft, dts: Seq<nat>)
    requires
        0 <= a.pos.y <= AIRCRAFT_MAX_Y,
        -AIRCRAFT_MAX_X <= a.pos.x <= AIRCRAFT_MAX_X,
        a.speed == AIRCRAFT_SPEED,
    ensures
        rise_ticks(a, dts).pos.y == if a.pos.y + half_sum(dts) < AIRCRAFT_MAX_Y {
            a.pos.y + half_sum(dts)
        } else {
            AIRCRAFT_MAX_Y as int
        },
        rise_ticks(a, dts).pos.x == a.pos.x,
        half_sum(dts) >= 0,
        (forall|k: int| 0 <= k < dts.len() ==> #[trigger] dts[k] % 2 == 0) ==> half_sum(dts)
            == total_time(dts) / 2,
    decreases dts.len(),
{
    if dts.len() > 0 {
        let dt = dts[0] as int;
        assert(500_000 * dt / 1_000_000 == dt / 2) by (nonlinear_arith)
            requires dt >= 0;
        let a1 = a.spec_advance(up_only(), dt);
        lemma_rise_over_ticks(a1, dts.drop_first());
        if forall|k: int| 0 <= k < dts.len() ==> #[trigger] dts[k] % 2 == 0 {
            assert(dts[0] % 2 == 0);
            assert forall|k: int| 0 <= k < dts.drop_first().len() implies #[trigger] dts.drop_first()[k]
                % 2 == 0 by {
                assert(dts.drop_first()[k] == dts[k + 1]);
            }
        }
    }
}

} // verus!
