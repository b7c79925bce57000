//! The frame driver: all live entities, the score and the timers, advanced
//! one tick at a time through spawners, movers and the resolver.
use vstd::prelude::*;
use crate::aircraft::Aircraft;
use crate::background::{move_tiles, BackgroundTile};
use crate::bubble::{move_bubbles, spec_launched, Bubble};
use crate::bullet::{move_bullets, spec_move_bullets, Bullet};
use crate::config::{
    BULLET_INTERVAL, BULLET_SPEED, OBSTACLE_FIRST_INTERVAL, OBSTACLE_SPAWN_Y, TILE_BOTTOM, TILE_COUNT,
    TILE_SIZE,
};
use crate::controls::Controls;
use crate::geometry::Point;
use crate::obstacle::{move_obstacles, Obstacle};
use crate::random::SpawnDraws;
use crate::resolver::{resolve_collisions, score_change, spec_resolve};
use crate::score::Score;
use crate::sound::Sound;
use crate::timer::IntervalTimer;

verus! {

/// Everything the game tracks, as mathematical values.
pub struct WorldState {
    pub aircraft: Aircraft,
    pub bullets: Seq<Bullet>,
    pub bubbles: Seq<Bubble>,
    pub obstacles: Seq<Obstacle>,
    pub tiles: Seq<BackgroundTile>,
    pub score: int,
    pub bullet_timer: IntervalTimer,
    pub obstacle_timer: IntervalTimer,
}

/// The live game. The aircraft is a field of its own, so there is always
/// exactly one.
pub struct World {
    pub aircraft: Aircraft,
    pub bullets: Vec<Bullet>,
    pub bubbles: Vec<Bubble>,
    pub obstacles: Vec<Obstacle>,
    pub tiles: Vec<BackgroundTile>,
    pub score: Score,
    pub bullet_timer: IntervalTimer,
    pub obstacle_timer: IntervalTimer,
}

impl View for World {
    type V = WorldState;

    open spec fn view(&self) -> WorldState {
        WorldState {
            aircraft: self.aircraft,
            bullets: self.bullets@,
            bubbles: self.bubbles@,
            obstacles: self.obstacles@,
            tiles: self.tiles@,
            score: self.score.0 as int,
            bullet_timer: self.bullet_timer,
            obstacle_timer: self.obstacle_timer,
        }
    }
}

pub open spec fn bubbles_wf(s: Seq<Bubble>) -> bool {
    forall|j: int| 0 <= j < s.len() ==> (#[trigger] s[j]).wf()
}

/// The bullet spawner: its timer runs every tick, and when it fires while the
/// primary fire is held a bullet leaves the aircraft, with a shot sound.
pub open spec fn spawn_bullet(w: WorldState, c: Controls, dt: int) -> (WorldState, Seq<Sound>) {
    let w1 = WorldState { bullet_timer: w.bullet_timer.spec_ticked(dt), ..w };
    if w.bullet_timer.spec_fires(dt) && c.primary_fire {
        (
            WorldState {
                bullets: w1.bullets.push(Bullet { pos: w.aircraft.pos, speed: BULLET_SPEED }),
                ..w1
            },
            seq![Sound::Shot],
        )
    } else {
        (w1, Seq::empty())
    }
}

/// The bubble spawner: each tick the secondary fire is held a bubble leaves the
/// aircraft.
pub open spec fn spawn_bubble(w: WorldState, c: Controls, d: SpawnDraws) -> WorldState {
    if c.secondary_fire {
        WorldState {
            bubbles: w.bubbles.push(
                spec_launched(
                    w.aircraft.pos,
                    d.bubble_dx as int,
                    d.bubble_dy as int,
                    d.bubble_neg_x,
                    d.bubble_neg_y,
                    d.bubble_speed as int,
                    d.bubble_variant,
                ),
            ),
            ..w
        }
    } else {
        w
    }
}

/// The obstacle spawner: when its timer fires, the timer takes a new random
/// duration and an obstacle appears above the window.
pub open spec fn spawn_obstacle(w: WorldState, dt: int, d: SpawnDraws) -> WorldState {
    let t = w.obstacle_timer.spec_ticked(dt);
    if w.obstacle_timer.spec_fires(dt) {
        WorldState {
            obstacle_timer: IntervalTimer { duration: d.obstacle_interval, ..t },
            obstacles: w.obstacles.push(
                Obstacle {
                    pos: Point {
                        x: (if d.obstacle_left {
                            -(d.obstacle_offset as int)
                        } else {
                            d.obstacle_offset as int
                        }) as i64,
                        y: OBSTACLE_SPAWN_Y,
                    },
                    speed: d.obstacle_speed,
                },
            ),
            ..w
        }
    } else {
        WorldState { obstacle_timer: t, ..w }
    }
}

/// Every entity moves for `dt`; bullets above the window are dropped.
pub open spec fn move_all(w: WorldState, c: Controls, dt: int) -> WorldState {
    WorldState {
        aircraft: w.aircraft.spec_advance(c, dt),
        bullets: spec_move_bullets(w.bullets, dt),
        bubbles: w.bubbles.map_values(|b: Bubble| b.spec_advance(dt)),
        obstacles: w.obstacles.map_values(|o: Obstacle| o.spec_advance(dt)),
        tiles: w.tiles.map_values(|t: BackgroundTile| t.spec_advance(dt)),
        ..w
    }
}

/// One tick: spawners, then movers, then the resolver. Also gives the sounds
/// to play, the spawners' first.
pub open spec fn spec_step(w: WorldState, c: Controls, dt: int, d: SpawnDraws) -> (
    WorldState,
    Seq<Sound>,
) {
    let (w1, shot) = spawn_bullet(w, c, dt);
    let w2 = spawn_obstacle(spawn_bubble(w1, c, d), dt, d);
    let m = move_all(w2, c, dt);
    let r = spec_resolve(m.aircraft, m.obstacles, m.bullets);
    (
        WorldState {
            obstacles: r.obstacles,
            bullets: r.bullets,
            score: m.score + score_change(r),
            ..m
        },
        shot + r.sounds,
    )
}

impl World {
    /// Every bubble's velocity can be reversed.
    pub open spec fn wf(&self) -> bool {
        bubbles_wf(self.bubbles@)
    }

    /// The score leaves room for every change that the next tick can bring.
    pub open spec fn score_has_room(&self) -> bool {
        &&& self.score.0 - 10 * (self.obstacles@.len() + 1) >= i64::MIN
        &&& self.score.0 + self.obstacles@.len() + 1 <= i64::MAX
    }

    /// Whether `step` and `tick` may be called on the game as it stands.
    pub fn can_step(&self) -> (r: bool)
        ensures
            r == (self.wf() && self.score_has_room()),
    {
        let n: i128 = self.obstacles.len() as i128 + 1;
        let score: i128 = self.score.0 as i128;
        let room: bool = score - 10 * n >= i64::MIN as i128 && score + n <= i64::MAX as i128;
        let mut i: usize = 0;
        while i < self.bubbles.len()
            invariant
                i <= self.bubbles@.len(),
                forall|j: int| 0 <= j < i ==> (#[trigger] self.bubbles@[j]).wf(),
            decreases self.bubbles@.len() - i,
        {
            let b: Bubble = self.bubbles[i];
            if b.vel.x == i64::MIN || b.vel.y == i64::MIN {
                return false;
            }
            i = i + 1;
        }
        room
    }

    /// The game at startup: the aircraft, the background, a zero score and no
    /// other entity.
    pub fn new() -> (r: World)
        ensures
            r.wf(),
            r.aircraft == Aircraft::new_spec(),
            r.bullets@.len() == 0,
            r.bubbles@.len() == 0,
            r.obstacles@.len() == 0,
            r.tiles@.len() == TILE_COUNT,
            forall|i: int| 0 <= i < TILE_COUNT ==> r.tiles@[i].y == TILE_BOTTOM + i * TILE_SIZE,
            r.score.0 == 0,
            r.bullet_timer == (IntervalTimer { elapsed: 0, duration: BULLET_INTERVAL }),
            r.obstacle_timer == (IntervalTimer { elapsed: 0, duration: OBSTACLE_FIRST_INTERVAL }),
    {
        World {
            aircraft: Aircraft::new(),
            bullets: Vec::new(),
            bubbles: Vec::new(),
            obstacles: Vec::new(),
            tiles: BackgroundTile::initial_stack(),
            score: Score::new(),
            bullet_timer: IntervalTimer::new(BULLET_INTERVAL),
            obstacle_timer: IntervalTimer::new(OBSTACLE_FIRST_INTERVAL),
        }
    }

    /// Advances the game by `dt` with the buttons `c` held, taking the random
    /// values from `d`; returns the sounds to play.
    pub fn step(&mut self, c: &Controls, dt: u64, d: &SpawnDraws) -> (sounds: Vec<Sound>)
        requires
            old(self).wf(),
            old(self).score_has_room(),
            d.in_range(),
        ensures
            final(self).wf(),
            (final(self)@, sounds@) == spec_step(old(self)@, *c, dt as int, *d),
    {
        let ghost w0 = self@;
        let mut sounds: Vec<Sound> = Vec::new();
        // spawners
        let bullet_due: bool = self.bullet_timer.tick(dt);
        if bullet_due && c.primary_fire {
            self.bullets.push(Bullet::new(self.aircraft.pos));
            sounds.push(Sound::Shot);
        }
        assert(sounds@ == spawn_bullet(w0, *c, dt as int).1);
        if c.secondary_fire {
            let b: Bubble = Bubble::launched(
                self.aircraft.pos,
                d.bubble_dx,
                d.bubble_dy,
                d.bubble_neg_x,
                d.bubble_neg_y,
                d.bubble_speed,
                d.bubble_variant,
            );
            self.bubbles.push(b);
        }
        let obstacle_due: bool = self.obstacle_timer.tick(dt);
        if obstacle_due {
            self.obstacle_timer.set_duration(d.obstacle_interval);
            self.obstacles.push(
                Obstacle::spawned(d.obstacle_offset, d.obstacle_left, d.obstacle_speed),
            );
        }
        let ghost w2 = self@;
        assert(w2 == spawn_obstacle(spawn_bubble(spawn_bullet(w0, *c, dt as int).0, *c, *d), dt as int, *d));
        // movers
        self.aircraft.advance(c, dt);
        move_bullets(&mut self.bullets, dt);
        move_bubbles(&mut self.bubbles, dt);
        move_obstacles(&mut self.obstacles, dt);
        move_tiles(&mut self.tiles, dt);
        assert(self@ == move_all(w2, *c, dt as int));
        // resolver
        let mut resolved: Vec<Sound> = resolve_collisions(
            &self.aircraft,
            &mut self.obstacles,
            &mut self.bullets,
            &mut self.score,
        );
        sounds.append(&mut resolved);
        sounds
    }

    /// Advances the game by `dt` with the buttons `c` held, drawing the random
    /// values that the spawners need; returns the sounds to play. Whatever is
    /// drawn, each value lies in its range and the tick is as `step` gives it.
    pub fn tick(&mut self, c: &Controls, dt: u64) -> (sounds: Vec<Sound>)
        requires
            old(self).wf(),
            old(self).score_has_room(),
        ensures
            final(self).wf(),
            exists|d: SpawnDraws|
                d.in_range() && (final(self)@, sounds@) == #[trigger] spec_step(
                    old(self)@,
                    *c,
                    dt as int,
                    d,
                ),
    {
        let d: SpawnDraws = SpawnDraws::draw();
        let sounds: Vec<Sound> = self.step(c, dt, &d);
        assert(d.in_range() && (self@, sounds@) == spec_step(old(self)@, *c, dt as int, d));
        sounds
    }
}

} // verus!
