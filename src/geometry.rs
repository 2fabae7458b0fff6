use vstd::prelude::*;

verus! {

/// Number of coordinate steps in one screen unit.
pub const STEPS_PER_UNIT: i32 = 100;

/// Hit radius in coordinate steps: half a screen unit.
pub const HIT_RADIUS: i32 = 50;

/// A point of the canvas, in hundredths of a screen unit.
#[derive(Clone, Copy, Debug, PartialEq, Eq, Structural)]
pub struct Point {
    pub x: i32,
    pub y: i32,
}

/// Squared Euclidean distance between two points, in squared steps.
pub open spec fn dist_sq(p: Point, q: Point) -> int {
    (p.x - q.x) * (p.x - q.x) + (p.y - q.y) * (p.y - q.y)
}

/// The two points lie closer together than the hit radius.
pub open spec fn within_hit(p: Point, q: Point) -> bool {
    dist_sq(p, q) < HIT_RADIUS * HIT_RADIUS
}

impl Point {
    pub fn new(x: i32, y: i32) -> (r: Point)
        ensures
            r.x == x,
            r.y == y,
    {
        Point { x, y }
    }

    /// Hit test of `self` as the reference point against `other`: true iff
    /// their distance is strictly below half a screen unit.
    pub fn hits_point(&self, other: &Point) -> (r: bool)
        ensures
            r == within_hit(*self, *other),
    {
        let dx: i64 = self.x as i64 - other.x as i64;
        let dy: i64 = self.y as i64 - other.y as i64;
        proof {
            assert(-0x1_0000_0000 <= dx <= 0x1_0000_0000);
            assert(-0x1_0000_0000 <= dy <= 0x1_0000_0000);
            assert(dx * dx <= 0x1_0000_0000 * 0x1_0000_0000) by (nonlinear_arith)
                requires -0x1_0000_0000 <= dx <= 0x1_0000_0000;
            assert(dy * dy <= 0x1_0000_0000 * 0x1_0000_0000) by (nonlinear_arith)
                requires -0x1_0000_0000 <= dy <= 0x1_0000_0000;
            assert(dx * dx >= 0 && dy * dy >= 0) by (nonlinear_arith);
        }
        let sq: i128 = dx as i128 * dx as i128 + dy as i128 * dy as i128;
        let radius: i128 = HIT_RADIUS as i128;
        assert(radius == 50);
        sq < radius * radius
    }
}

/// Hitting is symmetric: it does not matter which point is the reference.
pub proof fn lemma_hit_symmetric(p: Point, q: Point)
    ensures
        within_hit(p, q) == within_hit(q, p),
        dist_sq(p, q) == dist_sq(q, p),
{
    assert((p.x - q.x) * (p.x - q.x) == (q.x - p.x) * (q.x - p.x)) by (nonlinear_arith);
    assert((p.y - q.y) * (p.y - q.y) == (q.y - p.y) * (q.y - p.y)) by (nonlinear_arith);
}

/// An axis-aligned rectangle: the points with `x <= px < x + width` and
/// `y <= py < y + height`.
#[derive(Clone, Copy, Debug, PartialEq, Eq, Structural)]
pub struct Rect {
    pub x: i32,
    pub y: i32,
    pub width: i32,
    pub height: i32,
}

impl Rect {
    pub fn new(x: i32, y: i32, width: i32, height: i32) -> (r: Rect)
        ensures
            r == (Rect { x, y, width, height }),
    {
        Rect { x, y, width, height }
    }

    pub open spec fn spec_contains(self, p: Point) -> bool {
        &&& self.x <= p.x
        &&& p.x < self.x + self.width
        &&& self.y <= p.y
        &&& p.y < self.y + self.height
    }

    pub fn contains(&self, p: &Point) -> (r: bool)
        ensures
            r == self.spec_contains(*p),
    {
        let right: i64 = self.x as i64 + self.width as i64;
        let bottom: i64 = self.y as i64 + self.height as i64;
        self.x <= p.x && (p.x as i64) < right && self.y <= p.y && (p.y as i64) < bottom
    }
}

} // verus!
