use skyshooter::controls::Controls;
use skyshooter::geometry::Point;
use skyshooter::obstacle::Obstacle;
use skyshooter::random::SpawnDraws;
use skyshooter::sound::Sound;
use skyshooter::timer::IntervalTimer;
use skyshooter::world::World;

fn draws() -> SpawnDraws {
    SpawnDraws {
        obstacle_offset: 100_000,
        obstacle_left: true,
        obstacle_speed: 200_000,
        obstacle_interval: 2_000_000,
        bubble_dx: 600,
        bubble_dy: 800,
        bubble_neg_x: false,
        bubble_neg_y: true,
        bubble_speed: 100_000,
        bubble_variant: 2,
    }
}

#[test]
fn new_world_has_one_aircraft_and_zero_score() {
    let w = World::new();
    assert_eq!(w.aircraft.pos, Point::new(0, -340_000));
    assert_eq!(w.aircraft.speed, 500_000);
    assert_eq!(w.score.value(), 0);
    assert!(w.bullets.is_empty() && w.bubbles.is_empty() && w.obstacles.is_empty());
    let ys: Vec<i64> = w.tiles.iter().map(|t| t.y).collect();
    assert_eq!(ys, vec![-180_000, 460_000, 1_100_000]);
    assert!(w.can_step());
}

#[test]
fn can_step_refuses_states_out_of_range() {
    let mut w = World::new();
    w.score = skyshooter::score::Score(i64::MIN + 5);
    assert!(!w.can_step());
    let mut w = World::new();
    w.score = skyshooter::score::Score(i64::MAX);
    assert!(!w.can_step());
    let mut w = World::new();
    w.bubbles.push(skyshooter::bubble::Bubble {
        pos: Point::new(0, 0),
        vel: Point::new(i64::MIN, 0),
        variant: 0,
    });
    assert!(!w.can_step());
}

#[test]
fn step_runs_spawners_movers_and_resolver() {
    let mut w = World::new();
    let mut c = Controls::idle();
    c.primary_fire = true;
    c.secondary_fire = true;
    let sounds = w.step(&c, 100_000, &draws());
    assert_eq!(sounds, vec![Sound::Shot]);
    // the bullet left the aircraft, then rose 54 units
    assert_eq!(w.bullets.len(), 1);
    assert_eq!(w.bullets[0].pos, Point::new(0, -340_000 + 54_000));
    // the bubble left the aircraft along (0.6, -0.8) at 100 units per second
    assert_eq!(w.bubbles.len(), 1);
    assert_eq!(w.bubbles[0].vel, Point::new(60_000, -80_000));
    assert_eq!(w.bubbles[0].pos, Point::new(6_000, -348_000));
    assert_eq!(w.bubbles[0].variant, 2);
    // the first obstacle appeared above the window and fell 20 units
    assert_eq!(w.obstacles, vec![Obstacle::new(Point::new(-100_000, 510_000), 200_000)]);
    assert_eq!(w.obstacle_timer, IntervalTimer { elapsed: 0, duration: 2_000_000 });
    assert_eq!(w.tiles[0].y, -184_000);
}

#[test]
fn no_bullet_without_primary_fire() {
    let mut w = World::new();
    let sounds = w.step(&Controls::idle(), 100_000, &draws());
    assert!(sounds.is_empty());
    assert!(w.bullets.is_empty());
    assert!(w.bubbles.is_empty());
}

#[test]
fn frozen_obstacle_collides_once() {
    let mut w = World::new();
    w.obstacle_timer = IntervalTimer::new(u64::MAX);
    w.aircraft.pos = Point::new(0, 0);
    w.obstacles.push(Obstacle::new(Point::new(0, 520_000), 0));
    for _ in 0..5 {
        let sounds = w.step(&Controls::idle(), 16_000, &draws());
        assert!(sounds.is_empty());
    }
    assert_eq!(w.score.value(), 0);
    assert_eq!(w.obstacles.len(), 1);
    w.obstacles[0].pos.y = 0;
    let sounds = w.step(&Controls::idle(), 16_000, &draws());
    assert_eq!(sounds, vec![Sound::Injured]);
    assert_eq!(w.score.value(), -10);
    for _ in 0..5 {
        w.step(&Controls::idle(), 16_000, &draws());
    }
    assert_eq!(w.score.value(), -10);
    assert!(w.obstacles.is_empty());
}

#[test]
fn shooting_an_obstacle_scores_one() {
    let mut w = World::new();
    w.obstacle_timer = IntervalTimer::new(u64::MAX);
    w.obstacles.push(Obstacle::new(Point::new(0, -250_000), 0));
    let mut c = Controls::idle();
    c.primary_fire = true;
    let sounds = w.step(&c, 100_000, &draws());
    assert_eq!(sounds, vec![Sound::Shot, Sound::Explosion]);
    assert_eq!(w.score.value(), 1);
    assert!(w.obstacles.is_empty());
    assert!(w.bullets.is_empty());
}

#[test]
fn drawn_values_lie_in_their_ranges() {
    let mut speeds = Vec::new();
    for _ in 0..200 {
        let d = SpawnDraws::draw();
        assert!(d.obstacle_offset < 290_000);
        assert!((100_000..300_000).contains(&d.obstacle_speed));
        assert!(d.obstacle_interval < 3_000_000);
        assert!(d.bubble_dx < 1000 && d.bubble_dy < 1000);
        assert!((50_000..200_000).contains(&d.bubble_speed));
        assert!(d.bubble_variant < 3);
        speeds.push(d.obstacle_speed);
    }
    assert!(speeds.iter().any(|s| *s != 100_000));
}

#[test]
fn tick_spawns_within_ranges() {
    let mut w = World::new();
    let sounds = w.tick(&Controls::idle(), 100_000);
    assert!(sounds.is_empty());
    assert_eq!(w.obstacles.len(), 1);
    let o = w.obstacles[0];
    assert!(o.pos.x > -290_000 && o.pos.x < 290_000);
    assert!((100_000..300_000).contains(&o.speed));
    assert_eq!(o.pos.y, 530_000 - (o.speed as i64) / 10);
    assert!(w.obstacle_timer.duration < 3_000_000);
}
