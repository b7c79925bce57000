//! Obstacles: they fall from above the window toward the aircraft.
use vstd::prelude::*;
use crate::config::{
    OBSTACLE_EXIT_Y, OBSTACLE_HEIGHT, OBSTACLE_SPAWN_HALF_WIDTH, OBSTACLE_SPAWN_Y, OBSTACLE_WIDTH,
};
use crate::geometry::{Point, Size};
use crate::motion::{distance, offset, saturate, spec_distance};

verus! {

#[derive(Clone, Copy, Debug, PartialEq, Eq, Structural)]
pub struct Obstacle {
    pub pos: Point,
    /// Downward speed.
    pub speed: u64,
}

pub open spec fn obstacle_size() -> Size {
    Size { w: OBSTACLE_WIDTH, h: OBSTACLE_HEIGHT }
}

impl Obstacle {
    pub fn new(pos: Point, speed: u64) -> (r: Obstacle)
        ensures
            r.pos == pos,
            r.speed == speed,
    {
        Obstacle { pos, speed }
    }

    /// A new obstacle just above the top edge, `x_offset` away from the
    /// vertical centre line (to the left when `to_left`), falling at `speed`.
    pub fn spawned(x_offset: u64, to_left: bool, speed: u64) -> (r: Obstacle)
        requires
            x_offset < OBSTACLE_SPAWN_HALF_WIDTH,
        ensures
            r.pos.x == (if to_left { -(x_offset as int) } else { x_offset as int }),
            r.pos.y == OBSTACLE_SPAWN_Y,
            r.speed == speed,
    {
        let x: i64 = if to_left { -(x_offset as i64) } else { x_offset as i64 };
        Obstacle { pos: Point { x, y: OBSTACLE_SPAWN_Y }, speed }
    }

    pub fn size() -> (r: Size)
        ensures
            r == obstacle_size(),
    {
        Size { w: OBSTACLE_WIDTH, h: OBSTACLE_HEIGHT }
    }

    /// The obstacle after falling for `dt`.
    pub open spec fn spec_advance(self, dt: int) -> Obstacle {
        Obstacle {
            pos: Point {
                x: self.pos.x,
                y: saturate(self.pos.y - spec_distance(self.speed as int, dt)) as i64,
            },
            speed: self.speed,
        }
    }

    /// Whether the obstacle has fallen wholly below the window.
    pub open spec fn spec_exited(self) -> bool {
        self.pos.y < OBSTACLE_EXIT_Y
    }

    pub fn advance(&mut self, dt: u64)
        ensures
            *final(self) == old(self).spec_advance(dt as int),
    {
        let d: u128 = distance(self.speed, dt);
        self.pos.y = offset(self.pos.y, -(d as i128));
    }

    pub fn exited(&self) -> (r: bool)
        ensures
            r == self.spec_exited(),
    {
        self.pos.y < OBSTACLE_EXIT_Y
    }
}

/// Each obstacle falls for `dt`; none is removed here.
pub fn move_obstacles(obstacles: &mut Vec<Obstacle>, dt: u64)
    ensures
        final(obstacles)@ == old(obstacles)@.map_values(|o: Obstacle| o.spec_advance(dt as int)),
{
    let ghost s = obstacles@;
    let mut moved: Vec<Obstacle> = Vec::new();
    let mut i: usize = 0;
    while i < obstacles.len()
        invariant
            obstacles@ == s,
            i <= s.len(),
            moved@.len() == i,
            forall|j: int| 0 <= j < i ==> moved@[j] == s[j].spec_advance(dt as int),
        decreases s.len() - i,
    {
        let mut o: Obstacle = obstacles[i];
        o.advance(dt);
        moved.push(o);
        i = i + 1;
    }
    assert(moved@ =~= s.map_values(|o: Obstacle| o.spec_advance(dt as int)));
    *obstacles = moved;
}

} // verus!
