//! Bubbles: shot in a random direction, bouncing off all four window edges.
use vstd::prelude::*;
use crate::config::{
    BUBBLE_MAX_X, BUBBLE_MAX_Y, BUBBLE_SIZE, BUBBLE_SPEED_MAX, BUBBLE_SPEED_MIN, DIRECTION_SCALE,
};
use crate::geometry::{abs, Point, Size};
use crate::motion::{displace, saturate, spec_displacement, spec_distance};

verus! {

#[derive(Clone, Copy, Debug, PartialEq, Eq, Structural)]
pub struct Bubble {
    pub pos: Point,
    /// Velocity in milli-units per second on each axis.
    pub vel: Point,
    /// Which of the sprite variants it shows.
    pub variant: u64,
}

pub open spec fn bubble_size() -> Size {
    Size { w: BUBBLE_SIZE, h: BUBBLE_SIZE }
}

/// Factor by which a drawn direction is scaled up before its length is taken,
/// so that rounding that length down changes the speed by under a milli-unit.
pub const NORMALISE_SCALE: u64 = 1_000_000;

pub open spec fn is_floor_sqrt(r: int, n: int) -> bool {
    0 <= r && r * r <= n < (r + 1) * (r + 1)
}

/// The largest `r >= 0` with `r * r <= n`.
pub open spec fn floor_sqrt(n: int) -> int {
    choose|r: int| is_floor_sqrt(r, n)
}

fn isqrt(n: u64) -> (r: u64)
    requires
        n < 2_000_000_000_000_000_000,
    ensures
        r == floor_sqrt(n as int),
        is_floor_sqrt(r as int, n as int),
{
    let mut lo: u64 = 0;
    let mut hi: u64 = 1_500_000_000;
    while hi - lo > 1
        invariant
            lo < hi <= 1_500_000_000,
            lo * lo <= n,
            n < hi * hi,
        decreases hi - lo,
    {
        let mid: u64 = lo + (hi - lo) / 2;
        proof {
            assert(mid * mid <= 1_500_000_000 * 1_500_000_000) by (nonlinear_arith)
                requires 0 <= mid <= 1_500_000_000;
        }
        if mid * mid <= n {
            lo = mid;
        } else {
            hi = mid;
        }
    }
    proof {
        let c = floor_sqrt(n as int);
        assert(is_floor_sqrt(lo as int, n as int));
        assert(is_floor_sqrt(c, n as int));
        if c < lo {
            assert((c + 1) * (c + 1) <= lo * lo) by (nonlinear_arith)
                requires 0 <= c < lo;
        } else if lo < c {
            assert((lo + 1) * (lo + 1) <= c * c) by (nonlinear_arith)
                requires 0 <= lo < c;
        }
    }
    lo
}

/// The speed that a velocity `(a, b)` scaled from a direction of rounded-down
/// length `n` keeps: below `s + 1`, and at least `s` once each component is
/// raised by the one milli-unit that rounding may have taken.
proof fn lemma_launch_speed(s: int, x: int, y: int, n: int, a: int, b: int)
    requires
        0 <= s <= n,
        x >= 0,
        y >= 0,
        is_floor_sqrt(n, x * x + y * y),
        n > 0,
        a == s * x / n,
        b == s * y / n,
    ensures
        a * a + b * b < (s + 1) * (s + 1),
        (a + 1) * (a + 1) + (b + 1) * (b + 1) >= s * s,
{
    let q = x * x + y * y;
    assert(a * n <= s * x && s * x < (a + 1) * n && a >= 0) by (nonlinear_arith)
        requires a == s * x / n, n > 0, s >= 0, x >= 0;
    assert(b * n <= s * y && s * y < (b + 1) * n && b >= 0) by (nonlinear_arith)
        requires b == s * y / n, n > 0, s >= 0, y >= 0;
    assert((a * n) * (a * n) <= (s * x) * (s * x)) by (nonlinear_arith)
        requires 0 <= a * n <= s * x;
    assert((b * n) * (b * n) <= (s * y) * (s * y)) by (nonlinear_arith)
        requires 0 <= b * n <= s * y;
    assert((s * x) * (s * x) <= ((a + 1) * n) * ((a + 1) * n)) by (nonlinear_arith)
        requires 0 <= s * x < (a + 1) * n;
    assert((s * y) * (s * y) <= ((b + 1) * n) * ((b + 1) * n)) by (nonlinear_arith)
        requires 0 <= s * y < (b + 1) * n;
    if s == 0 {
        assert(a == 0 && b == 0);
    } else {
        let nn = n * n;
        assert(nn > 0) by (nonlinear_arith)
            requires nn == n * n, n > 0;
        assert((a * n) * (a * n) == nn * (a * a)) by (nonlinear_arith)
            requires nn == n * n;
        assert((b * n) * (b * n) == nn * (b * b)) by (nonlinear_arith)
            requires nn == n * n;
        assert((s * x) * (s * x) + (s * y) * (s * y) == (s * s) * q) by (nonlinear_arith)
            requires q == x * x + y * y;
        assert((s * s) * q < (s * s) * ((n + 1) * (n + 1))) by (nonlinear_arith)
            requires q < (n + 1) * (n + 1), s > 0;
        assert((s * s) * ((n + 1) * (n + 1)) == (s * (n + 1)) * (s * (n + 1))) by (nonlinear_arith);
        assert(s * (n + 1) <= (s + 1) * n) by (nonlinear_arith)
            requires 0 <= s <= n;
        assert((s * (n + 1)) * (s * (n + 1)) <= ((s + 1) * n) * ((s + 1) * n)) by (nonlinear_arith)
            requires 0 <= s * (n + 1) <= (s + 1) * n;
        assert(((s + 1) * n) * ((s + 1) * n) == nn * ((s + 1) * (s + 1))) by (nonlinear_arith)
            requires nn == n * n;
        assert(nn * (a * a) + nn * (b * b) < nn * ((s + 1) * (s + 1)));
        assert(nn * (a * a + b * b) == nn * (a * a) + nn * (b * b)) by (nonlinear_arith);
        assert(a * a + b * b < (s + 1) * (s + 1)) by (nonlinear_arith)
            requires nn * (a * a + b * b) < nn * ((s + 1) * (s + 1)), nn > 0;
        assert(((a + 1) * n) * ((a + 1) * n) == nn * ((a + 1) * (a + 1))) by (nonlinear_arith)
            requires nn == n * n;
        assert(((b + 1) * n) * ((b + 1) * n) == nn * ((b + 1) * (b + 1))) by (nonlinear_arith)
            requires nn == n * n;
        assert((s * s) * nn <= (s * s) * q) by (nonlinear_arith)
            requires nn <= q, s >= 0;
        assert(nn * ((a + 1) * (a + 1)) + nn * ((b + 1) * (b + 1)) >= nn * (s * s)) by (nonlinear_arith)
            requires
                nn * ((a + 1) * (a + 1)) + nn * ((b + 1) * (b + 1)) >= (s * s) * q,
                (s * s) * nn <= (s * s) * q,
                (s * s) * q >= (s * s) * nn;
        assert(nn * ((a + 1) * (a + 1) + (b + 1) * (b + 1)) == nn * ((a + 1) * (a + 1)) + nn * ((b + 1)
            * (b + 1))) by (nonlinear_arith);
        assert((a + 1) * (a + 1) + (b + 1) * (b + 1) >= s * s) by (nonlinear_arith)
            requires nn * ((a + 1) * (a + 1) + (b + 1) * (b + 1)) >= nn * (s * s), nn > 0;
    }
}

/// `v` with its sign flipped when `flip`.
pub open spec fn signed(v: int, flip: bool) -> int {
    if flip {
        -v
    } else {
        v
    }
}

/// The velocity of a new bubble: the direction `(dx, dy)`, signs applied, scaled
/// to length `speed`. The direction is first scaled up by `NORMALISE_SCALE` and
/// its length rounded down, and each component is rounded toward zero, so the
/// speed comes out within a milli-unit of `speed`. A null direction points
/// along x.
pub open spec fn launch_velocity(dx: int, dy: int, neg_x: bool, neg_y: bool, speed: int) -> (int, int) {
    let x = dx * NORMALISE_SCALE;
    let y = dy * NORMALISE_SCALE;
    let n = floor_sqrt(x * x + y * y);
    if dx == 0 && dy == 0 {
        (signed(speed, neg_x), 0)
    } else {
        (signed(speed * x / n, neg_x), signed(speed * y / n, neg_y))
    }
}

/// A new bubble at `at`, with the velocity `launch_velocity` gives.
pub open spec fn spec_launched(
    at: Point,
    dx: int,
    dy: int,
    neg_x: bool,
    neg_y: bool,
    speed: int,
    variant: u64,
) -> Bubble {
    let v = launch_velocity(dx, dy, neg_x, neg_y, speed);
    Bubble { pos: at, vel: Point { x: v.0 as i64, y: v.1 as i64 }, variant }
}

/// Whether a bubble's centre at `v` is past the edge at `max` on either side.
pub open spec fn past_edge(v: int, max: int) -> bool {
    v > max || v < -max
}

impl Bubble {
    /// Velocities of this size can be reversed.
    pub open spec fn wf(self) -> bool {
        self.vel.x != i64::MIN && self.vel.y != i64::MIN
    }

    /// A new bubble at `at` moving along `(dx, dy)` (each in
    /// `[0, DIRECTION_SCALE)`, negated on the axes asked for) at `speed`.
    pub fn launched(
        at: Point,
        dx: u64,
        dy: u64,
        neg_x: bool,
        neg_y: bool,
        speed: u64,
        variant: u64,
    ) -> (r: Bubble)
        requires
            dx < DIRECTION_SCALE,
            dy < DIRECTION_SCALE,
            speed < BUBBLE_SPEED_MAX,
        ensures
            r.pos == at,
            (r.vel.x as int, r.vel.y as int) == launch_velocity(
                dx as int,
                dy as int,
                neg_x,
                neg_y,
                speed as int,
            ),
            r.variant == variant,
            r.vel.x * r.vel.x + r.vel.y * r.vel.y < (speed + 1) * (speed + 1),
            (abs(r.vel.x as int) + 1) * (abs(r.vel.x as int) + 1) + (abs(r.vel.y as int) + 1) * (
            abs(r.vel.y as int) + 1) >= speed * speed,
            r.vel.x * r.vel.x + r.vel.y * r.vel.y < BUBBLE_SPEED_MAX * BUBBLE_SPEED_MAX,
            speed >= BUBBLE_SPEED_MIN ==> (abs(r.vel.x as int) + 1) * (abs(r.vel.x as int) + 1) + (
            abs(r.vel.y as int) + 1) * (abs(r.vel.y as int) + 1) >= BUBBLE_SPEED_MIN
                * BUBBLE_SPEED_MIN,
            r == spec_launched(at, dx as int, dy as int, neg_x, neg_y, speed as int, variant),
            r.wf(),
    {
        let (vx, vy): (i64, i64) = if dx == 0 && dy == 0 {
            proof {
                let s = speed as int;
                assert(s * s < (s + 1) * (s + 1) && (s + 1) * (s + 1) + 1 >= s * s) by (nonlinear_arith)
                    requires s >= 0;
            }
            (speed as i64, 0)
        } else {
            let x: u64 = dx * NORMALISE_SCALE;
            let y: u64 = dy * NORMALISE_SCALE;
            proof {
                assert(x * x < 1_000_000_000_000_000_000) by (nonlinear_arith)
                    requires x == dx * 1_000_000, dx < 1000;
                assert(y * y < 1_000_000_000_000_000_000) by (nonlinear_arith)
                    requires y == dy * 1_000_000, dy < 1000;
            }
            let n: u64 = isqrt(x * x + y * y);
            proof {
                assert(x * x + y * y >= 1_000_000_000_000) by (nonlinear_arith)
                    requires x == dx * 1_000_000, y == dy * 1_000_000, dx > 0 || dy > 0, dx >= 0, dy >= 0;
                assert(n >= 1_000_000) by (nonlinear_arith)
                    requires x * x + y * y < (n + 1) * (n + 1), x * x + y * y >= 1_000_000_000_000, n >= 0;
                assert(speed * x < 200_000 * 1_000_000_000) by (nonlinear_arith)
                    requires speed < 200_000, x == dx * 1_000_000, dx < 1000;
                assert(speed * y < 200_000 * 1_000_000_000) by (nonlinear_arith)
                    requires speed < 200_000, y == dy * 1_000_000, dy < 1000;
                assert((speed as int) * (x as int) / (n as int) <= (speed as int) * (x as int)) by (nonlinear_arith)
                    requires n >= 1, (speed as int) * (x as int) >= 0;
                assert((speed as int) * (y as int) / (n as int) <= (speed as int) * (y as int)) by (nonlinear_arith)
                    requires n >= 1, (speed as int) * (y as int) >= 0;
                lemma_launch_speed(speed as int, x as int, y as int, n as int,
                    (speed as int) * (x as int) / (n as int), (speed as int) * (y as int) / (n as int));
            }
            ((speed * x / n) as i64, (speed * y / n) as i64)
        };
        let x: i64 = if neg_x { -vx } else { vx };
        let y: i64 = if neg_y { -vy } else { vy };
        proof {
            let s = speed as int;
            assert(x * x == vx * vx) by (nonlinear_arith)
                requires x == vx || x == -vx;
            assert(y * y == vy * vy) by (nonlinear_arith)
                requires y == vy || y == -vy;
            assert(abs(x as int) == vx && abs(y as int) == vy);
            assert((s + 1) * (s + 1) <= 200_000 * 200_000) by (nonlinear_arith)
                requires 0 <= s, s + 1 <= 200_000;
            if s >= 50_000 {
                assert(s * s >= 50_000 * 50_000) by (nonlinear_arith)
                    requires s >= 50_000;
            }
        }
        Bubble { pos: at, vel: Point { x, y }, variant }
    }

    pub fn size() -> (r: Size)
        ensures
            r == bubble_size(),
    {
        Size { w: BUBBLE_SIZE, h: BUBBLE_SIZE }
    }

    /// The bubble after a tick: it moves by its velocity, then reverses the
    /// velocity on each axis where it is past a window edge.
    pub open spec fn spec_advance(self, dt: int) -> Bubble {
        let x = saturate(self.pos.x + spec_displacement(self.vel.x as int, dt));
        let y = saturate(self.pos.y + spec_displacement(self.vel.y as int, dt));
        Bubble {
            pos: Point { x: x as i64, y: y as i64 },
            vel: Point {
                x: (if past_edge(x, BUBBLE_MAX_X as int) { -self.vel.x } else { self.vel.x as int }) as i64,
                y: (if past_edge(y, BUBBLE_MAX_Y as int) { -self.vel.y } else { self.vel.y as int }) as i64,
            },
            variant: self.variant,
        }
    }

    pub fn advance(&mut self, dt: u64)
        requires
            old(self).wf(),
        ensures
            *final(self) == old(self).spec_advance(dt as int),
            final(self).wf(),
    {
        self.pos.x = displace(self.pos.x, self.vel.x, dt);
        self.pos.y = displace(self.pos.y, self.vel.y, dt);
        if self.pos.x > BUBBLE_MAX_X || self.pos.x < -BUBBLE_MAX_X {
            self.vel.x = -self.vel.x;
        }
        if self.pos.y > BUBBLE_MAX_Y || self.pos.y < -BUBBLE_MAX_Y {
            self.vel.y = -self.vel.y;
        }
    }
}

/// Each bubble moves and bounces for `dt`.
pub fn move_bubbles(bubbles: &mut Vec<Bubble>, dt: u64)
    requires
        forall|j: int| 0 <= j < old(bubbles)@.len() ==> (#[trigger] old(bubbles)@[j]).wf(),
    ensures
        final(bubbles)@ == old(bubbles)@.map_values(|b: Bubble| b.spec_advance(dt as int)),
        forall|j: int| 0 <= j < final(bubbles)@.len() ==> (#[trigger] final(bubbles)@[j]).wf(),
{
    let ghost s = bubbles@;
    let mut moved: Vec<Bubble> = Vec::new();
    let mut i: usize = 0;
    while i < bubbles.len()
        invariant
            bubbles@ == s,
            i <= s.len(),
            forall|j: int| 0 <= j < s.len() ==> (#[trigger] s[j]).wf(),
            moved@.len() == i,
            forall|j: int| 0 <= j < i ==> moved@[j] == s[j].spec_advance(dt as int),
            forall|j: int| 0 <= j < i ==> (#[trigger] moved@[j]).wf(),
        decreases s.len() - i,
    {
        let mut b: Bubble = bubbles[i];
        b.advance(dt);
        moved.push(b);
        i = i + 1;
    }
    assert(moved@ =~= s.map_values(|b: Bubble| b.spec_advance(dt as int)));
    *bubbles = moved;
}

/// A bubble moving right at 100 units per second that crosses the right edge
/// turns around at the same speed, having passed the edge by no more than one
/// tick's travel.
pub proof fn lemma_bounce_off_right_edge(b: Bubble, dt: int)
    requires
        b.vel == (Point { x: 100_000, y: 0 }),
        b.pos.x <= BUBBLE_MAX_X,
        -BUBBLE_MAX_Y <= b.pos.y <= BUBBLE_MAX_Y,
        dt >= 0,
        b.spec_advance(dt).pos.x > BUBBLE_MAX_X,
    ensures
        b.spec_advance(dt).vel == (Point { x: -100_000i64, y: 0 }),
        b.spec_advance(dt).pos.x <= BUBBLE_MAX_X + spec_distance(100_000, dt),
        b.spec_advance(dt).pos.y == b.pos.y,
{
    assert(spec_distance(100_000, dt) >= 0) by (nonlinear_arith)
        requires dt >= 0;
    assert(spec_distance(0, dt) == 0);
}

/// On one axis, with edges at `-max` and `max` and `d` the distance covered
/// per tick: the centre is never further past an edge than `d`, and past an
/// edge the velocity points back inside (or is zero).
pub open spec fn axis_contained(p: int, v: int, d: int, max: int) -> bool {
    &&& abs(p) <= max + d
    &&& p > max ==> v <= 0
    &&& p < -max ==> v >= 0
}

/// A bubble whose velocity can be reversed and which, with ticks of `dt`, is
/// contained on both axes.
pub open spec fn bubble_contained(b: Bubble, dt: int) -> bool {
    &&& b.wf()
    &&& axis_contained(
        b.pos.x as int,
        b.vel.x as int,
        spec_distance(abs(b.vel.x as int), dt),
        BUBBLE_MAX_X as int,
    )
    &&& axis_contained(
        b.pos.y as int,
        b.vel.y as int,
        spec_distance(abs(b.vel.y as int), dt),
        BUBBLE_MAX_Y as int,
    )
}

/// The bubble after `n` ticks of `dt` each.
pub open spec fn advance_ticks(b: Bubble, dt: int, n: nat) -> Bubble
    decreases n,
{
    if n == 0 {
        b
    } else {
        advance_ticks(b, dt, (n - 1) as nat).spec_advance(dt)
    }
}

proof fn lemma_axis_step(p: int, v: int, dt: int, max: int)
    requires
        i64::MIN <= p <= i64::MAX,
        i64::MIN < v <= i64::MAX,
        0 <= max < i64::MAX,
        dt >= 0,
        axis_contained(p, v, spec_distance(abs(v), dt), max),
    ensures
        ({
            let q = saturate(p + spec_displacement(v, dt));
            let w = if past_edge(q, max) { -v } else { v };
            &&& axis_contained(q, w, spec_distance(abs(v), dt), max)
            &&& abs(w) == abs(v)
            &&& i64::MIN < w <= i64::MAX
        }),
{
    let d = spec_distance(abs(v), dt);
    assert(d >= 0) by (nonlinear_arith)
        requires d == abs(v) * dt / 1_000_000, abs(v) >= 0, dt >= 0;
    if v == 0 {
        assert(d == 0) by (nonlinear_arith)
            requires d == abs(v) * dt / 1_000_000, v == 0;
    }
}

/// Bouncing keeps a bubble contained: with ticks of one length `dt`, a bubble
/// that starts inside the window never passes an edge by more than one tick's
/// travel on that axis, and its speed on each axis never changes.
pub proof fn lemma_bounce_keeps_contained(b: Bubble, dt: int, n: nat)
    requires
        b.wf(),
        dt >= 0,
        abs(b.pos.x as int) <= BUBBLE_MAX_X,
        abs(b.pos.y as int) <= BUBBLE_MAX_Y,
    ensures
        bubble_contained(advance_ticks(b, dt, n), dt),
        abs(advance_ticks(b, dt, n).vel.x as int) == abs(b.vel.x as int),
        abs(advance_ticks(b, dt, n).vel.y as int) == abs(b.vel.y as int),
    decreases n,
{
    if n == 0 {
        let dx = spec_distance(abs(b.vel.x as int), dt);
        let dy = spec_distance(abs(b.vel.y as int), dt);
        assert(dx >= 0) by (nonlinear_arith)
            requires dx == abs(b.vel.x as int) * dt / 1_000_000, dt >= 0;
        assert(dy >= 0) by (nonlinear_arith)
            requires dy == abs(b.vel.y as int) * dt / 1_000_000, dt >= 0;
    } else {
        lemma_bounce_keeps_contained(b, dt, (n - 1) as nat);
        let c = advance_ticks(b, dt, (n - 1) as nat);
        lemma_axis_step(c.pos.x as int, c.vel.x as int, dt, BUBBLE_MAX_X as int);
        lemma_axis_step(c.pos.y as int, c.vel.y as int, dt, BUBBLE_MAX_Y as int);
    }
}

} // verus!
