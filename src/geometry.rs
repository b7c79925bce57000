//! Points, rectangle sizes and the axis-aligned overlap test.
use vstd::prelude::*;

verus! {

/// A point in world space, in milli-units.
#[derive(Clone, Copy, Debug, PartialEq, Eq, Structural)]
pub struct Point {
    pub x: i64,
    pub y: i64,
}

/// The full width and height of a rectangle centred on a point.
#[derive(Clone, Copy, Debug, PartialEq, Eq, Structural)]
pub struct Size {
    pub w: i64,
    pub h: i64,
}

impl Point {
    pub fn new(x: i64, y: i64) -> (r: Point)
        ensures
            r.x == x,
            r.y == y,
    {
        Point { x, y }
    }
}

impl Size {
    pub fn new(w: i64, h: i64) -> (r: Size)
        ensures
            r.w == w,
            r.h == h,
    {
        Size { w, h }
    }
}

pub open spec fn abs(v: int) -> int {
    if v < 0 {
        -v
    } else {
        v
    }
}

/// Two centred rectangles overlap when, on both axes, the distance between the
/// centres is less than half the sum of the extents.
pub open spec fn spec_overlaps(a: Point, sa: Size, b: Point, sb: Size) -> bool {
    &&& 2 * abs(a.x - b.x) < sa.w + sb.w
    &&& 2 * abs(a.y - b.y) < sa.h + sb.h
}

/// The gap between two rectangles along the x axis, doubled so that it stays
/// an integer; negative when they penetrate.
pub open spec fn double_gap_x(a: Point, sa: Size, b: Point, sb: Size) -> int {
    2 * abs(a.x - b.x) - (sa.w + sb.w)
}

/// Whether the rectangle of size `sa` centred on `a` and the one of size `sb`
/// centred on `b` intersect with nonzero area.
pub fn overlaps(a: Point, sa: Size, b: Point, sb: Size) -> (r: bool)
    ensures
        r == spec_overlaps(a, sa, b, sb),
{
    let dx: i128 = a.x as i128 - b.x as i128;
    let dy: i128 = a.y as i128 - b.y as i128;
    let adx: i128 = if dx < 0 { -dx } else { dx };
    let ady: i128 = if dy < 0 { -dy } else { dy };
    2 * adx < sa.w as i128 + sb.w as i128 && 2 * ady < sa.h as i128 + sb.h as i128
}

/// Overlap does not depend on the order of the two rectangles.
pub proof fn lemma_overlaps_symmetric(a: Point, sa: Size, b: Point, sb: Size)
    ensures
        spec_overlaps(a, sa, b, sb) == spec_overlaps(b, sb, a, sa),
{
}

/// Rectangles that touch edge to edge along x (a gap of zero) do not overlap.
pub proof fn lemma_touching_does_not_overlap(a: Point, sa: Size, b: Point, sb: Size)
    requires
        double_gap_x(a, sa, b, sb) == 0,
    ensures
        !spec_overlaps(a, sa, b, sb),
{
}

/// Rectangles on one horizontal line (same centre height, positive heights)
/// that penetrate along x by any positive depth, however small, overlap.
pub proof fn lemma_penetration_overlaps(a: Point, sa: Size, b: Point, sb: Size, depth: int)
    requires
        depth > 0,
        double_gap_x(a, sa, b, sb) == -2 * depth,
        a.y == b.y,
        sa.h > 0,
        sb.h > 0,
    ensures
        spec_overlaps(a, sa, b, sb),
{
}

} // verus!
