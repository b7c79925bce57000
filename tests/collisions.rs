use skyshooter::aircraft::Aircraft;
use skyshooter::bullet::Bullet;
use skyshooter::geometry::{overlaps, Point, Size};
use skyshooter::obstacle::Obstacle;
use skyshooter::resolver::{first_hit, resolve_collisions};
use skyshooter::score::Score;
use skyshooter::sound::Sound;

fn aircraft_at(x: i64, y: i64) -> Aircraft {
    let mut a = Aircraft::new();
    a.pos = Point::new(x, y);
    a
}

#[test]
fn overlap_is_symmetric() {
    let cases = [
        (Point::new(0, 0), Size::new(10, 10), Point::new(4, 4), Size::new(2, 2)),
        (Point::new(-50, 7), Size::new(30, 8), Point::new(-30, 3), Size::new(10, 2)),
        (Point::new(0, 0), Size::new(10, 10), Point::new(10, 0), Size::new(10, 10)),
        (Point::new(1000, -1000), Size::new(1, 1), Point::new(-1000, 1000), Size::new(5, 5)),
    ];
    for (a, sa, b, sb) in cases {
        assert_eq!(overlaps(a, sa, b, sb), overlaps(b, sb, a, sa));
    }
    assert!(overlaps(Point::new(0, 0), Size::new(10, 10), Point::new(4, 4), Size::new(2, 2)));
    assert!(!overlaps(
        Point::new(1000, -1000),
        Size::new(1, 1),
        Point::new(-1000, 1000),
        Size::new(5, 5)
    ));
}

#[test]
fn touching_edges_do_not_overlap() {
    // two 60-unit squares whose centres are 60 units apart touch edge to edge
    let size = Obstacle::size();
    assert!(!overlaps(Point::new(0, 0), size, Point::new(60_000, 0), size));
    assert!(!overlaps(Point::new(0, 0), size, Point::new(0, -60_000), size));
}

#[test]
fn one_unit_penetration_overlaps() {
    let size = Obstacle::size();
    assert!(overlaps(Point::new(0, 0), size, Point::new(59_000, 0), size));
    assert!(overlaps(Point::new(0, 0), size, Point::new(0, -59_000), size));
}

#[test]
fn exited_obstacle_is_removed_without_score() {
    // the aircraft sits low enough to overlap the obstacle below the exit line
    let a = aircraft_at(0, -500_000);
    let mut obstacles = vec![Obstacle::new(Point::new(0, -530_001), 100_000)];
    let mut bullets = vec![Bullet::new(Point::new(0, -530_001))];
    let mut score = Score::new();
    let sounds = resolve_collisions(&a, &mut obstacles, &mut bullets, &mut score);
    assert!(obstacles.is_empty());
    assert_eq!(bullets.len(), 1);
    assert_eq!(score.value(), 0);
    assert!(sounds.is_empty());
}

#[test]
fn obstacle_on_exit_line_stays() {
    let a = aircraft_at(0, 0);
    let mut obstacles = vec![Obstacle::new(Point::new(0, -530_000), 100_000)];
    let mut bullets = Vec::new();
    let mut score = Score::new();
    resolve_collisions(&a, &mut obstacles, &mut bullets, &mut score);
    assert_eq!(obstacles.len(), 1);
    assert_eq!(score.value(), 0);
}

#[test]
fn aircraft_collision_beats_bullet() {
    let a = aircraft_at(0, 0);
    let mut obstacles = vec![Obstacle::new(Point::new(0, 30_000), 0)];
    let mut bullets = vec![Bullet::new(Point::new(0, 30_000))];
    let mut score = Score::new();
    let sounds = resolve_collisions(&a, &mut obstacles, &mut bullets, &mut score);
    assert!(obstacles.is_empty());
    assert_eq!(bullets.len(), 1);
    assert_eq!(score.value(), -10);
    assert_eq!(sounds, vec![Sound::Injured]);
}

#[test]
fn bullet_hit_scores_once() {
    let a = aircraft_at(0, -400_000);
    // one bullet between two obstacles, overlapping both
    let mut obstacles = vec![
        Obstacle::new(Point::new(100_000, 200_000), 0),
        Obstacle::new(Point::new(100_000, 240_000), 0),
    ];
    let mut bullets = vec![Bullet::new(Point::new(100_000, 220_000))];
    let mut score = Score::new();
    let sounds = resolve_collisions(&a, &mut obstacles, &mut bullets, &mut score);
    assert_eq!(score.value(), 1);
    assert!(bullets.is_empty());
    assert_eq!(obstacles, vec![Obstacle::new(Point::new(100_000, 240_000), 0)]);
    assert_eq!(sounds, vec![Sound::Explosion]);
}

#[test]
fn first_overlapping_bullet_is_used() {
    let o = Obstacle::new(Point::new(0, 0), 0);
    let bullets = vec![
        Bullet::new(Point::new(200_000, 0)),
        Bullet::new(Point::new(10_000, 10_000)),
        Bullet::new(Point::new(0, 0)),
    ];
    assert_eq!(first_hit(&o, &bullets), Some(1));
    assert_eq!(first_hit(&o, &bullets[..1].to_vec()), None);
}

#[test]
fn hit_then_collision_gives_minus_nine() {
    let mut s = Score::new();
    s.hit();
    s.collision();
    assert_eq!(s.value(), -9);
}

#[test]
fn score_goes_negative_without_floor() {
    let mut s = Score::new();
    s.collision();
    s.collision();
    assert_eq!(s.value(), -20);
}
