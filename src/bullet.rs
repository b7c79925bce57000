//! Bullets: fired upward from the aircraft, gone past the top edge.
use vstd::prelude::*;
use crate::config::{BULLET_EXIT_Y, BULLET_HEIGHT, BULLET_SPEED, BULLET_WIDTH};
use crate::geometry::{Point, Size};
use crate::motion::{distance, offset, saturate, spec_distance};

verus! {

#[derive(Clone, Copy, Debug, PartialEq, Eq, Structural)]
pub struct Bullet {
    pub pos: Point,
    /// Upward speed.
    pub speed: u64,
}

pub open spec fn bullet_size() -> Size {
    Size { w: BULLET_WIDTH, h: BULLET_HEIGHT }
}

impl Bullet {
    /// A bullet leaving `pos` at the standard speed.
    pub fn new(pos: Point) -> (r: Bullet)
        ensures
            r.pos == pos,
            r.speed == BULLET_SPEED,
    {
        Bullet { pos, speed: BULLET_SPEED }
    }

    pub fn size() -> (r: Size)
        ensures
            r == bullet_size(),
    {
        Size { w: BULLET_WIDTH, h: BULLET_HEIGHT }
    }

    /// The bullet after rising for `dt`.
    pub open spec fn spec_advance(self, dt: int) -> Bullet {
        Bullet {
            pos: Point {
                x: self.pos.x,
                y: saturate(self.pos.y + spec_distance(self.speed as int, dt)) as i64,
            },
            speed: self.speed,
        }
    }

    /// Whether the bullet has risen wholly above the window.
    pub open spec fn spec_gone(self) -> bool {
        self.pos.y > BULLET_EXIT_Y
    }

    pub fn advance(&mut self, dt: u64)
        ensures
            *final(self) == old(self).spec_advance(dt as int),
    {
        let d: u128 = distance(self.speed, dt);
        self.pos.y = offset(self.pos.y, d as i128);
    }

    pub fn gone(&self) -> (r: bool)
        ensures
            r == self.spec_gone(),
    {
        self.pos.y > BULLET_EXIT_Y
    }
}

/// The bullets after a tick: each one rises, and those above the window are
/// dropped; the others keep their order.
pub open spec fn spec_move_bullets(s: Seq<Bullet>, dt: int) -> Seq<Bullet>
    decreases s.len(),
{
    if s.len() == 0 {
        s
    } else {
        let rest = spec_move_bullets(s.drop_last(), dt);
        let b = s.last().spec_advance(dt);
        if b.spec_gone() {
            rest
        } else {
            rest.push(b)
        }
    }
}

pub fn move_bullets(bullets: &mut Vec<Bullet>, dt: u64)
    ensures
        final(bullets)@ == spec_move_bullets(old(bullets)@, dt as int),
{
    let ghost s = bullets@;
    let mut kept: Vec<Bullet> = Vec::new();
    let mut i: usize = 0;
    while i < bullets.len()
        invariant
            bullets@ == s,
            i <= s.len(),
            kept@ == spec_move_bullets(s.take(i as int), dt as int),
        decreases s.len() - i,
    {
        let mut b: Bullet = bullets[i];
        b.advance(dt);
        if !b.gone() {
            kept.push(b);
        }
        assert(s.take(i + 1).drop_last() =~= s.take(i as int));
        i = i + 1;
    }
    assert(s.take(s.len() as int) =~= s);
    *bullets = kept;
}

} // verus!
