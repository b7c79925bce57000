//! Collision resolution: obstacles against the window's bottom edge, the
//! aircraft and the bullets, in that order of priority.
use vstd::prelude::*;
use crate::aircraft::{aircraft_size, Aircraft};
use crate::bullet::{bullet_size, Bullet};
use crate::geometry::{lemma_overlaps_symmetric, overlaps, spec_overlaps};
use crate::obstacle::{obstacle_size, Obstacle};
use crate::score::Score;
use crate::sound::Sound;

verus! {

/// What a sweep of the resolver has produced so far.
pub struct Resolution {
    /// Obstacles that survive, in the order they came in.
    pub obstacles: Seq<Obstacle>,
    /// Bullets that survive, in the order they came in.
    pub bullets: Seq<Bullet>,
    /// Obstacles shot down.
    pub hits: nat,
    /// Obstacles that hit the aircraft.
    pub collisions: nat,
    pub sounds: Seq<Sound>,
}

/// The change of score that a resolution brings.
pub open spec fn score_change(r: Resolution) -> int {
    r.hits - 10 * r.collisions
}

pub open spec fn hits_aircraft(a: Aircraft, o: Obstacle) -> bool {
    spec_overlaps(a.pos, aircraft_size(), o.pos, obstacle_size())
}

pub open spec fn hits_bullet(o: Obstacle, b: Bullet) -> bool {
    spec_overlaps(o.pos, obstacle_size(), b.pos, bullet_size())
}

/// `j` is the position of the first bullet in `bs` that overlaps `o`.
pub open spec fn is_first_hit(o: Obstacle, bs: Seq<Bullet>, j: int) -> bool {
    &&& 0 <= j < bs.len()
    &&& hits_bullet(o, bs[j])
    &&& forall|k: int| 0 <= k < j ==> !hits_bullet(o, #[trigger] bs[k])
}

/// The position of the first bullet that overlaps `o`, if any does.
pub open spec fn spec_first_hit(o: Obstacle, bs: Seq<Bullet>) -> Option<int> {
    if exists|j: int| is_first_hit(o, bs, j) {
        Some(choose|j: int| is_first_hit(o, bs, j))
    } else {
        None
    }
}

/// One obstacle through the rules, first match wins: below the window it is
/// dropped; touching the aircraft it is dropped and costs ten points; touching
/// a bullet, both are dropped and it earns one point; otherwise it stays.
pub open spec fn resolve_one(r: Resolution, a: Aircraft, o: Obstacle) -> Resolution {
    if o.spec_exited() {
        r
    } else if hits_aircraft(a, o) {
        Resolution { collisions: r.collisions + 1, sounds: r.sounds.push(Sound::Injured), ..r }
    } else {
        match spec_first_hit(o, r.bullets) {
            Some(j) => Resolution {
                bullets: r.bullets.remove(j),
                hits: r.hits + 1,
                sounds: r.sounds.push(Sound::Explosion),
                ..r
            },
            None => Resolution { obstacles: r.obstacles.push(o), ..r },
        }
    }
}

/// The sweep over `obs` in order, against the aircraft and the bullets `bs`.
pub open spec fn spec_resolve(a: Aircraft, obs: Seq<Obstacle>, bs: Seq<Bullet>) -> Resolution
    decreases obs.len(),
{
    if obs.len() == 0 {
        Resolution { obstacles: Seq::empty(), bullets: bs, hits: 0, collisions: 0, sounds: Seq::empty() }
    } else {
        resolve_one(spec_resolve(a, obs.drop_last(), bs), a, obs.last())
    }
}

proof fn lemma_first_hit_is(o: Obstacle, bs: Seq<Bullet>, j: int)
    requires
        is_first_hit(o, bs, j),
    ensures
        spec_first_hit(o, bs) == Some(j),
{
    let c = choose|j: int| is_first_hit(o, bs, j);
    assert(is_first_hit(o, bs, c));
    if c < j {
        assert(!hits_bullet(o, bs[c]));
    } else if j < c {
        assert(!hits_bullet(o, bs[j]));
    }
}

/// The position of the first bullet that `o` overlaps.
pub fn first_hit(o: &Obstacle, bullets: &Vec<Bullet>) -> (r: Option<usize>)
    ensures
        match r {
            Some(j) => spec_first_hit(*o, bullets@) == Some(j as int),
            None => spec_first_hit(*o, bullets@) is None,
        },
{
    let mut k: usize = 0;
    while k < bullets.len()
        invariant
            k <= bullets@.len(),
            forall|m: int| 0 <= m < k ==> !hits_bullet(*o, #[trigger] bullets@[m]),
        decreases bullets@.len() - k,
    {
        if overlaps(o.pos, Obstacle::size(), bullets[k].pos, Bullet::size()) {
            proof {
                lemma_first_hit_is(*o, bullets@, k as int);
            }
            return Some(k);
        }
        k = k + 1;
    }
    assert(!exists|j: int| is_first_hit(*o, bullets@, j));
    None
}

/// Whether an obstacle hits the aircraft does not depend on which of the two
/// rectangles is taken first.
pub proof fn lemma_aircraft_hit_symmetric(a: Aircraft, o: Obstacle)
    ensures
        hits_aircraft(a, o) == spec_overlaps(o.pos, obstacle_size(), a.pos, aircraft_size()),
{
    lemma_overlaps_symmetric(a.pos, aircraft_size(), o.pos, obstacle_size());
}

/// An obstacle below the window is removed without any change of score, and
/// nothing else changes, even where it also overlaps the aircraft.
pub proof fn lemma_exit_has_priority(r: Resolution, a: Aircraft, o: Obstacle)
    requires
        o.spec_exited(),
    ensures
        resolve_one(r, a, o) == r,
{
}

/// An obstacle that overlaps the aircraft costs ten points and is removed,
/// and every bullet survives, even one that overlaps the obstacle too.
pub proof fn lemma_aircraft_before_bullets(r: Resolution, a: Aircraft, o: Obstacle)
    requires
        !o.spec_exited(),
        hits_aircraft(a, o),
    ensures
        score_change(resolve_one(r, a, o)) == score_change(r) - 10,
        resolve_one(r, a, o).obstacles == r.obstacles,
        resolve_one(r, a, o).bullets == r.bullets,
{
}

/// An obstacle hit by a bullet earns exactly one point; it and that one bullet
/// (the first that overlaps it) are removed, and the other bullets stay.
pub proof fn lemma_hit_removes_both(r: Resolution, a: Aircraft, o: Obstacle, j: int)
    requires
        !o.spec_exited(),
        !hits_aircraft(a, o),
        is_first_hit(o, r.bullets, j),
    ensures
        score_change(resolve_one(r, a, o)) == score_change(r) + 1,
        resolve_one(r, a, o).obstacles == r.obstacles,
        resolve_one(r, a, o).bullets == r.bullets.remove(j),
{
    lemma_first_hit_is(o, r.bullets, j);
}

/// Over a whole sweep every point earned uses up one bullet: no bullet scores
/// twice, against one obstacle or against several.
pub proof fn lemma_each_hit_uses_a_bullet(a: Aircraft, obs: Seq<Obstacle>, bs: Seq<Bullet>)
    ensures
        spec_resolve(a, obs, bs).bullets.len() + spec_resolve(a, obs, bs).hits == bs.len(),
    decreases obs.len(),
{
    if obs.len() > 0 {
        lemma_each_hit_uses_a_bullet(a, obs.drop_last(), bs);
        let r = spec_resolve(a, obs.drop_last(), bs);
        let o = obs.last();
        if !o.spec_exited() && !hits_aircraft(a, o) {
            if let Some(j) = spec_first_hit(o, r.bullets) {
                let c = choose|j: int| is_first_hit(o, r.bullets, j);
                assert(is_first_hit(o, r.bullets, c));
            }
        }
    }
}

/// After a sweep no surviving obstacle is below the window or overlaps the
/// aircraft: each collision is counted once, on the tick it is found, and
/// cannot count again on a later tick.
pub proof fn lemma_survivors_are_clear(a: Aircraft, obs: Seq<Obstacle>, bs: Seq<Bullet>)
    ensures
        forall|k: int|
            0 <= k < spec_resolve(a, obs, bs).obstacles.len() ==> {
                let o = #[trigger] spec_resolve(a, obs, bs).obstacles[k];
                !o.spec_exited() && !hits_aircraft(a, o)
            },
    decreases obs.len(),
{
    if obs.len() > 0 {
        lemma_survivors_are_clear(a, obs.drop_last(), bs);
        let r = spec_resolve(a, obs.drop_last(), bs);
        let res = spec_resolve(a, obs, bs);
        let o = obs.last();
        assert forall|k: int| 0 <= k < res.obstacles.len() implies {
            let p = #[trigger] res.obstacles[k];
            !p.spec_exited() && !hits_aircraft(a, p)
        } by {
            if k < r.obstacles.len() {
                assert(res.obstacles[k] == r.obstacles[k]);
            } else {
                assert(res.obstacles == r.obstacles.push(o));
            }
        }
    }
}

/// Runs the resolver over every obstacle: updates the score, drops the
/// obstacles and bullets that the rules remove, and returns the sounds to play.
pub fn resolve_collisions(
    aircraft: &Aircraft,
    obstacles: &mut Vec<Obstacle>,
    bullets: &mut Vec<Bullet>,
    score: &mut Score,
) -> (sounds: Vec<Sound>)
    requires
        old(score).0 - 10 * old(obstacles)@.len() >= i64::MIN,
        old(score).0 + old(obstacles)@.len() <= i64::MAX,
    ensures
        final(obstacles)@ == spec_resolve(*aircraft, old(obstacles)@, old(bullets)@).obstacles,
        final(bullets)@ == spec_resolve(*aircraft, old(obstacles)@, old(bullets)@).bullets,
        final(score).0 == old(score).0 + score_change(
            spec_resolve(*aircraft, old(obstacles)@, old(bullets)@),
        ),
        sounds@ == spec_resolve(*aircraft, old(obstacles)@, old(bullets)@).sounds,
{
    let ghost obs = obstacles@;
    let ghost bs = bullets@;
    let ghost s0 = score.0;
    let mut kept: Vec<Obstacle> = Vec::new();
    let mut sounds: Vec<Sound> = Vec::new();
    let mut i: usize = 0;
    while i < obstacles.len()
        invariant
            obstacles@ == obs,
            i <= obs.len(),
            s0 - 10 * obs.len() >= i64::MIN,
            s0 + obs.len() <= i64::MAX,
            kept@ == spec_resolve(*aircraft, obs.take(i as int), bs).obstacles,
            bullets@ == spec_resolve(*aircraft, obs.take(i as int), bs).bullets,
            sounds@ == spec_resolve(*aircraft, obs.take(i as int), bs).sounds,
            score.0 == s0 + score_change(spec_resolve(*aircraft, obs.take(i as int), bs)),
            spec_resolve(*aircraft, obs.take(i as int), bs).hits
                + spec_resolve(*aircraft, obs.take(i as int), bs).collisions <= i,
        decreases obs.len() - i,
    {
        let o: Obstacle = obstacles[i];
        assert(obs.take(i + 1).drop_last() =~= obs.take(i as int));
        if o.exited() {
        } else if overlaps(aircraft.pos, Aircraft::size(), o.pos, Obstacle::size()) {
            score.collision();
            sounds.push(Sound::Injured);
        } else {
            match first_hit(&o, bullets) {
                Some(j) => {
                    score.hit();
                    bullets.remove(j);
                    sounds.push(Sound::Explosion);
                },
                None => {
                    kept.push(o);
                },
            }
        }
        i = i + 1;
    }
    assert(obs.take(obs.len() as int) =~= obs);
    *obstacles = kept;
    sounds
}

} // verus!
