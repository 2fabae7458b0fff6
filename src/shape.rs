use vstd::prelude::*;

use crate::color::Color;
use crate::geometry::{within_hit, Point};

verus! {

/// Radius of a brush stamp in coordinate steps: ten screen units.
pub const BRUSH_RADIUS: i32 = 1000;

/// The hit-testing capability shared by everything that can be clicked.
pub trait Ent {
    /// The point `q` falls on `self`.
    spec fn hit_by(&self, q: Point) -> bool;

    fn is_colliding(&self, other: Point) -> (r: bool)
        ensures
            r == self.hit_by(other),
    ;
}

impl Ent for Point {
    open spec fn hit_by(&self, q: Point) -> bool {
        within_hit(*self, q)
    }

    fn is_colliding(&self, other: Point) -> (r: bool) {
        self.hits_point(&other)
    }
}

/// A circular brush stamp. Its radius is always positive.
#[derive(Clone, Copy, Debug, PartialEq)]
pub struct Pixel {
    center: Point,
    radius: i32,
    color: Color,
}

impl Pixel {
    #[verifier::type_invariant]
    spec fn radius_positive(&self) -> bool {
        self.radius > 0
    }

    pub closed spec fn spec_center(&self) -> Point {
        self.center
    }

    pub closed spec fn spec_radius(&self) -> int {
        self.radius as int
    }

    pub closed spec fn spec_color(&self) -> Color {
        self.color
    }

    /// The stamp with the given center, radius and color.
    pub closed spec fn spec_new(center: Point, radius: i32, color: Color) -> Pixel {
        Pixel { center, radius, color }
    }

    pub proof fn lemma_spec_new_fields(center: Point, radius: i32, color: Color)
        ensures
            Pixel::spec_new(center, radius, color).spec_center() == center,
            Pixel::spec_new(center, radius, color).spec_radius() == radius,
            Pixel::spec_new(center, radius, color).spec_color() == color,
    {
    }

    pub fn new(center: Point, radius: i32, color: Color) -> (p: Pixel)
        requires
            radius > 0,
        ensures
            p == Pixel::spec_new(center, radius, color),
            p.spec_center() == center,
            p.spec_radius() == radius,
            p.spec_color() == color,
    {
        Pixel { center, radius, color }
    }

    pub fn center(&self) -> (r: Point)
        ensures
            r == self.spec_center(),
    {
        self.center
    }

    pub fn radius(&self) -> (r: i32)
        ensures
            r as int == self.spec_radius(),
            r > 0,
    {
        proof {
            use_type_invariant(self);
        }
        self.radius
    }

    pub fn color(&self) -> (r: Color)
        ensures
            r == self.spec_color(),
    {
        self.color
    }
}

impl Ent for Pixel {
    /// A stamp is hit near its center.
    open spec fn hit_by(&self, q: Point) -> bool {
        within_hit(self.spec_center(), q)
    }

    fn is_colliding(&self, other: Point) -> (r: bool) {
        self.center.hits_point(&other)
    }
}

/// A placed shape of the canvas.
#[derive(Clone, Debug, PartialEq)]
pub enum Shape {
    /// A brush stamp.
    Stamp(Pixel),
    /// A straight segment between two points.
    Segment(Point, Point, Color),
    /// A closed polygon: its vertices in order, the last joined to the first.
    Polygon(Vec<Point>, Color),
}

/// Some vertex of `vs` lies within the hit radius of `q`.
pub open spec fn some_vertex_hit(vs: Seq<Point>, q: Point) -> bool {
    exists|i: int| 0 <= i < vs.len() && #[trigger] within_hit(vs[i], q)
}

/// Whether some vertex of `vs` lies within the hit radius of `q`.
pub fn vertex_hit(vs: &Vec<Point>, q: &Point) -> (r: bool)
    ensures
        r == some_vertex_hit(vs@, *q),
{
    let mut i: usize = 0;
    while i < vs.len()
        invariant
            0 <= i <= vs@.len(),
            forall|j: int| 0 <= j < i ==> !#[trigger] within_hit(vs@[j], *q),
        decreases vs@.len() - i,
    {
        if vs[i].hits_point(q) {
            assert(within_hit(vs@[i as int], *q));
            return true;
        }
        i = i + 1;
    }
    false
}

impl Ent for Shape {
    /// A shape is hit near one of the points that define it: a stamp's
    /// center, a segment's ends, a polygon's vertices.
    open spec fn hit_by(&self, q: Point) -> bool {
        match self {
            Shape::Stamp(p) => p.hit_by(q),
            Shape::Segment(a, b, _) => within_hit(*a, q) || within_hit(*b, q),
            Shape::Polygon(vs, _) => some_vertex_hit(vs@, q),
        }
    }

    fn is_colliding(&self, other: Point) -> (r: bool) {
        match self {
            Shape::Stamp(p) => p.is_colliding(other),
            Shape::Segment(a, b, _) => a.hits_point(&other) || b.hits_point(&other),
            Shape::Polygon(vs, _) => vertex_hit(vs, &other),
        }
    }
}

} // verus!
