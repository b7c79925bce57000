use skyshooter::aircraft::Aircraft;
use skyshooter::background::{move_tiles, BackgroundTile};
use skyshooter::bubble::{move_bubbles, Bubble};
use skyshooter::bullet::{move_bullets, Bullet};
use skyshooter::controls::Controls;
use skyshooter::geometry::Point;
use skyshooter::motion::distance;
use skyshooter::obstacle::{move_obstacles, Obstacle};
use skyshooter::timer::IntervalTimer;

fn up_only() -> Controls {
    let mut c = Controls::idle();
    c.up = true;
    c
}

#[test]
fn aircraft_rises_at_its_speed() {
    let mut a = Aircraft::new();
    a.pos = Point::new(0, 0);
    // 0.5 s at 500 units per second
    a.advance(&up_only(), 500_000);
    assert_eq!(a.pos, Point::new(0, 250_000));
}

#[test]
fn aircraft_stops_at_top_edge() {
    let mut a = Aircraft::new();
    a.pos = Point::new(0, 0);
    for _ in 0..10 {
        a.advance(&up_only(), 100_000);
    }
    // min(500 * 1.0, 460)
    assert_eq!(a.pos.y, 460_000);
}

#[test]
fn aircraft_rises_over_many_even_ticks() {
    let mut a = Aircraft::new();
    a.pos = Point::new(0, 0);
    // 0.5 s in 250 ticks of 2 ms
    for _ in 0..250 {
        a.advance(&up_only(), 2_000);
    }
    assert_eq!(a.pos, Point::new(0, 250_000));
}

#[test]
fn aircraft_moves_diagonally_and_clamps() {
    let mut a = Aircraft::new();
    a.pos = Point::new(280_000, 0);
    let mut c = Controls::idle();
    c.right = true;
    c.down = true;
    a.advance(&c, 20_000);
    assert_eq!(a.pos, Point::new(286_400, -10_000));
    let mut c = Controls::idle();
    c.left = true;
    c.right = true;
    a.advance(&c, 20_000);
    assert_eq!(a.pos, Point::new(286_400, -10_000));
}

#[test]
fn distance_rounds_down() {
    assert_eq!(distance(540_000, 16_667), 9_000);
    assert_eq!(distance(3, 1), 0);
    assert_eq!(distance(u64::MAX, u64::MAX), (u64::MAX as u128 * u64::MAX as u128) / 1_000_000);
}

#[test]
fn bullets_rise_and_leave_past_the_top() {
    let mut bullets = vec![Bullet::new(Point::new(5, 0)), Bullet::new(Point::new(7, 510_000))];
    move_bullets(&mut bullets, 100_000);
    // 540 units per second for 0.1 s
    assert_eq!(bullets, vec![Bullet::new(Point::new(5, 54_000))]);
}

#[test]
fn obstacles_fall_at_their_own_speed() {
    let mut obstacles = vec![
        Obstacle::new(Point::new(0, 530_000), 100_000),
        Obstacle::new(Point::new(3, 0), 250_000),
    ];
    move_obstacles(&mut obstacles, 200_000);
    assert_eq!(
        obstacles,
        vec![Obstacle::new(Point::new(0, 510_000), 100_000), Obstacle::new(Point::new(3, -50_000), 250_000)]
    );
}

#[test]
fn obstacle_spawns_above_the_window() {
    let o = Obstacle::spawned(120_000, true, 150_000);
    assert_eq!(o, Obstacle::new(Point::new(-120_000, 530_000), 150_000));
    let o = Obstacle::spawned(0, false, 100_000);
    assert_eq!(o.pos, Point::new(0, 530_000));
}

#[test]
fn bubble_bounces_off_right_edge() {
    let mut b = Bubble { pos: Point::new(299_000, 0), vel: Point::new(100_000, 0), variant: 0 };
    // 0.1 s at 100 units per second: 10 units, 9 of them past the edge
    b.advance(100_000);
    assert_eq!(b.pos, Point::new(309_000, 0));
    assert_eq!(b.vel, Point::new(-100_000, 0));
    b.advance(100_000);
    assert_eq!(b.pos, Point::new(299_000, 0));
    assert_eq!(b.vel, Point::new(-100_000, 0));
}

#[test]
fn bubble_bounces_off_bottom_edge() {
    let mut bubbles = vec![Bubble { pos: Point::new(0, -479_000), vel: Point::new(-30_000, -50_000), variant: 2 }];
    move_bubbles(&mut bubbles, 100_000);
    assert_eq!(bubbles[0].pos, Point::new(-3_000, -484_000));
    assert_eq!(bubbles[0].vel, Point::new(-30_000, 50_000));
}

#[test]
fn bubble_launch_velocity() {
    let at = Point::new(1, 2);
    let b = Bubble::launched(at, 300, 400, true, false, 100_000, 1);
    assert_eq!(b.pos, at);
    assert_eq!(b.vel, Point::new(-60_000, 80_000));
    assert_eq!(b.variant, 1);
    let b = Bubble::launched(at, 0, 0, false, true, 50_000, 2);
    assert_eq!(b.vel, Point::new(50_000, 0));
    let b = Bubble::launched(at, 0, 999, false, true, 199_999, 0);
    assert_eq!(b.vel, Point::new(0, -199_999));
}

#[test]
fn bubble_launch_speed_stays_in_range_for_short_directions() {
    let b = Bubble::launched(Point::new(0, 0), 1, 1, false, false, 199_000, 0);
    assert_eq!(b.vel, Point::new(140_714, 140_714));
    for (dx, dy, speed) in [(1u64, 1u64, 199_999u64), (2, 1, 50_000), (1, 0, 120_000), (999, 1, 77_777), (3, 7, 199_999)] {
        let b = Bubble::launched(Point::new(0, 0), dx, dy, true, true, speed, 1);
        let (x, y) = (b.vel.x as i128, b.vel.y as i128);
        let s = speed as i128;
        assert!(x * x + y * y < (s + 1) * (s + 1));
        assert!((x.abs() + 1).pow(2) + (y.abs() + 1).pow(2) >= s * s);
        assert!(x * x + y * y < 200_000 * 200_000);
        assert!((x.abs() + 1).pow(2) + (y.abs() + 1).pow(2) >= 50_000 * 50_000);
    }
}

#[test]
fn bubble_stays_within_one_tick_of_the_edges() {
    let mut b = Bubble { pos: Point::new(250_000, -470_000), vel: Point::new(137_000, -91_000), variant: 0 };
    let dt: u64 = 33_000;
    let (dx, dy): (i64, i64) = (137_000 * 33 / 1000, 91_000 * 33 / 1000);
    for _ in 0..1000 {
        b.advance(dt);
        assert!(b.pos.x.abs() <= 300_000 + dx);
        assert!(b.pos.y.abs() <= 480_000 + dy);
        assert_eq!(b.vel.x.abs(), 137_000);
        assert_eq!(b.vel.y.abs(), 91_000);
    }
}

#[test]
fn background_starts_stacked() {
    let tiles = BackgroundTile::initial_stack();
    let ys: Vec<i64> = tiles.iter().map(|t| t.y).collect();
    assert_eq!(ys, vec![-180_000, 460_000, 1_100_000]);
}

#[test]
fn background_wrap_keeps_spacing() {
    let mut tiles = BackgroundTile::initial_stack();
    let span: i64 = 1_920_000;
    let mut total: i64 = 0;
    for k in 0..400 {
        let dt: u64 = 16_000 + (k % 7) * 13_000;
        total += (dt as i64 * 40_000) / 1_000_000;
        move_tiles(&mut tiles, dt);
    }
    let start = [-180_000i64, 460_000, 1_100_000];
    for (t, y0) in tiles.iter().zip(start.iter()) {
        assert!(t.y >= -820_000 && t.y <= -820_000 + span);
        assert_eq!((t.y - (y0 - total)).rem_euclid(span), 0);
    }
    assert_eq!((tiles[1].y - tiles[0].y).rem_euclid(span), 640_000);
    assert_eq!((tiles[2].y - tiles[1].y).rem_euclid(span), 640_000);
}

#[test]
fn background_wrap_keeps_overshoot() {
    let mut t = BackgroundTile { y: -819_000 };
    // 0.05 s at 40 units per second: 2 units, 1 past the wrap line
    t.advance(50_000);
    assert_eq!(t.y, -820_000 + 1_920_000 - 1_000);
}

#[test]
fn timer_fires_and_keeps_remainder() {
    let mut t = IntervalTimer::new(100_000);
    assert!(!t.tick(60_000));
    assert!(t.tick(60_000));
    assert_eq!(t.elapsed, 20_000);
    t.set_duration(5_000);
    assert_eq!(t.elapsed, 20_000);
    assert!(t.tick(0));
    assert_eq!(t.elapsed, 0);
    let mut z = IntervalTimer::new(0);
    assert!(z.tick(7));
    assert_eq!(z.elapsed, 0);
}
