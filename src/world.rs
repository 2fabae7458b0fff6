use vstd::prelude::*;

use crate::geometry::Point;
use crate::shape::{Ent, Shape};

verus! {

/// A test on shapes, used to pick the shapes that `World::remove_where`
/// deletes.
pub trait ShapePredicate {
    /// The shape `s` is selected.
    spec fn selects(&self, s: Shape) -> bool;

    fn test(&self, s: &Shape) -> (r: bool)
        ensures
            r == self.selects(*s),
    ;
}

/// Selects the shapes that a click at `point` hits.
#[derive(Clone, Copy, Debug)]
pub struct HitAt {
    pub point: Point,
}

impl ShapePredicate for HitAt {
    open spec fn selects(&self, s: Shape) -> bool {
        s.hit_by(self.point)
    }

    fn test(&self, s: &Shape) -> (r: bool) {
        s.is_colliding(self.point)
    }
}

/// The canvas: the placed shapes in insertion order, which is also the draw
/// order (later shapes are drawn on top).
#[derive(Clone, Debug)]
pub struct World {
    tiles: Vec<Shape>,
}

impl View for World {
    type V = Seq<Shape>;

    closed spec fn view(&self) -> Seq<Shape> {
        self.tiles@
    }
}

/// The shapes of `s` that `pred` does not select, in their order in `s`.
pub open spec fn survivors<P: ShapePredicate>(s: Seq<Shape>, pred: P) -> Seq<Shape> {
    s.filter(|x: Shape| !pred.selects(x))
}

impl World {
    pub fn new() -> (w: World)
        ensures
            w@ == Seq::<Shape>::empty(),
    {
        World { tiles: Vec::new() }
    }

    /// Places `shape` on top of all others.
    pub fn append(&mut self, shape: Shape)
        ensures
            final(self)@ == old(self)@.push(shape),
    {
        self.tiles.push(shape);
    }

    /// The shapes in insertion order.
    pub fn iterate(&self) -> (r: &[Shape])
        ensures
            r@ == self@,
    {
        self.tiles.as_slice()
    }

    pub fn len(&self) -> (r: usize)
        ensures
            r == self@.len(),
    {
        self.tiles.len()
    }

    /// Deletes every shape that `pred` selects; the others keep their order.
    pub fn remove_where<P: ShapePredicate>(&mut self, pred: &P)
        ensures
            final(self)@ == survivors(old(self)@, *pred),
    {
        let mut rest: Vec<Shape> = Vec::new();
        core::mem::swap(&mut self.tiles, &mut rest);
        let ghost orig = rest@;
        let n: usize = rest.len();
        // Reverse the shapes, so that popping hands them out in order.
        let mut reversed: Vec<Shape> = Vec::new();
        while rest.len() > 0
            invariant
                rest@.len() + reversed@.len() == n,
                n == orig.len(),
                rest@ == orig.take(rest@.len() as int),
                forall|j: int| 0 <= j < reversed@.len() ==> reversed@[j] == orig[n - 1 - j],
            decreases rest@.len(),
        {
            let s = rest.pop().unwrap();
            reversed.push(s);
        }
        let mut kept: Vec<Shape> = Vec::new();
        let mut i: usize = 0;
        while i < n
            invariant
                n == orig.len(),
                0 <= i <= n,
                reversed@.len() == n - i,
                forall|j: int| 0 <= j < reversed@.len() ==> reversed@[j] == orig[n - 1 - j],
                kept@ == survivors(orig.take(i as int), *pred),
            decreases n - i,
        {
            let s = reversed.pop().unwrap();
            let selected = pred.test(&s);
            proof {
                assert(s == orig[i as int]);
                assert(orig.take(i + 1).drop_last() =~= orig.take(i as int));
                assert(orig.take(i + 1).last() == orig[i as int]);
                reveal(Seq::filter);
            }
            if !selected {
                kept.push(s);
            }
            i = i + 1;
        }
        assert(orig.take(n as int) =~= orig);
        self.tiles = kept;
    }
}

/// Shapes appended one after another to an empty world are iterated in the
/// order in which they were appended.
pub proof fn lemma_append_then_iterate(e1: Shape, e2: Shape, e3: Shape)
    ensures
        Seq::<Shape>::empty().push(e1).push(e2).push(e3) == seq![e1, e2, e3],
{
    assert(Seq::<Shape>::empty().push(e1).push(e2).push(e3) =~= seq![e1, e2, e3]);
}

} // verus!
