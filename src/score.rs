//! The player's score.
use vstd::prelude::*;

verus! {

/// The score: one point per obstacle shot down, ten lost per obstacle that
/// hits the aircraft. It has no floor and no ceiling.
#[derive(Clone, Copy, Debug, PartialEq, Eq, Structural)]
pub struct Score(pub i64);

/// Points gained for shooting down an obstacle.
pub const HIT_POINTS: i64 = 1;

/// Points lost when an obstacle hits the aircraft.
pub const COLLISION_POINTS: i64 = 10;

impl Score {
    /// A score of zero.
    pub fn new() -> (r: Score)
        ensures
            r.0 == 0,
    {
        Score(0)
    }

    pub fn value(&self) -> (r: i64)
        ensures
            r == self.0,
    {
        self.0
    }

    /// An obstacle was shot down: one point more.
    pub fn hit(&mut self)
        requires
            old(self).0 < i64::MAX,
        ensures
            final(self).0 == old(self).0 + HIT_POINTS,
    {
        self.0 = self.0 + HIT_POINTS;
    }

    /// An obstacle hit the aircraft: ten points less.
    pub fn collision(&mut self)
        requires
            old(self).0 >= i64::MIN + COLLISION_POINTS,
        ensures
            final(self).0 == old(self).0 - COLLISION_POINTS,
    {
        self.0 = self.0 - COLLISION_POINTS;
    }
}

} // verus!
