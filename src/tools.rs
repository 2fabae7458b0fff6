use vstd::prelude::*;

use crate::color::Color;
use crate::geometry::Point;
use crate::shape::{Pixel, Shape, BRUSH_RADIUS};
use crate::world::{survivors, HitAt, World};

verus! {

/// The fewest vertices that a committed polygon has.
pub const MIN_POLYGON_VERTICES: usize = 3;

/// Progress of the two-click line tool.
#[derive(Clone, Copy, Debug, PartialEq, Eq, Structural)]
pub enum LineState {
    /// Waiting for the first click.
    Firstpos,
    /// The first click captured this anchor; waiting for the second.
    Secondpos(Point),
}

/// The vertices captured so far by the polygon tool, in click order.
#[derive(Clone, Debug, PartialEq)]
pub struct PolygonState {
    vertices: Vec<Point>,
}

impl View for PolygonState {
    type V = Seq<Point>;

    closed spec fn view(&self) -> Seq<Point> {
        self.vertices@
    }
}

impl PolygonState {
    pub fn new() -> (p: PolygonState)
        ensures
            p@ == Seq::<Point>::empty(),
    {
        PolygonState { vertices: Vec::new() }
    }

    pub fn vertices(&self) -> (r: &[Point])
        ensures
            r@ == self@,
    {
        self.vertices.as_slice()
    }

    /// Drops every captured vertex.
    pub fn clear(&mut self)
        ensures
            final(self)@ == Seq::<Point>::empty(),
    {
        self.vertices = Vec::new();
    }
}

/// The stamp that the brush places at `pointer` in `color`.
pub open spec fn brush_stamp(pointer: Point, color: Color) -> Shape {
    Shape::Stamp(Pixel::spec_new(pointer, BRUSH_RADIUS, color))
}

/// The canvas after one brush frame.
pub open spec fn brush_step(tiles: Seq<Shape>, held: bool, pointer: Point, color: Color) -> Seq<Shape> {
    if held {
        tiles.push(brush_stamp(pointer, color))
    } else {
        tiles
    }
}

/// Brush: while the pointer button is held, each frame places one stamp of
/// the brush radius at the pointer, in the active color.
pub fn draw_with_brush(tiles: &mut World, held: bool, pointer: Point, color: &Color)
    ensures
        final(tiles)@ == brush_step(old(tiles)@, held, pointer, *color),
{
    if held {
        let pixel = Pixel::new(pointer, BRUSH_RADIUS, *color);
        tiles.append(Shape::Stamp(pixel));
    }
}

/// The canvas after consecutive brush frames at `pointer` with the button
/// held, frame `k` having the active color `colors[k]`.
pub open spec fn held_frames(tiles: Seq<Shape>, pointer: Point, colors: Seq<Color>) -> Seq<Shape>
    decreases colors.len(),
{
    if colors.len() == 0 {
        tiles
    } else {
        brush_step(held_frames(tiles, pointer, colors.drop_last()), true, pointer, colors.last())
    }
}

/// Holding the button for some consecutive frames at one position places
/// exactly one stamp per frame, after the shapes already there: each of the
/// brush radius, at that position, in that frame's active color.
pub proof fn lemma_brush_held_frames(tiles: Seq<Shape>, pointer: Point, colors: Seq<Color>)
    ensures
        held_frames(tiles, pointer, colors).len() == tiles.len() + colors.len(),
        held_frames(tiles, pointer, colors).take(tiles.len() as int) == tiles,
        forall|k: int|
            0 <= k < colors.len() ==> {
                let s = #[trigger] held_frames(tiles, pointer, colors)[tiles.len() + k];
                &&& s is Stamp
                &&& s->Stamp_0.spec_center() == pointer
                &&& s->Stamp_0.spec_radius() == BRUSH_RADIUS
                &&& s->Stamp_0.spec_color() == colors[k]
            },
    decreases colors.len(),
{
    if colors.len() > 0 {
        let before = colors.drop_last();
        lemma_brush_held_frames(tiles, pointer, before);
        let prev = held_frames(tiles, pointer, before);
        let r = held_frames(tiles, pointer, colors);
        assert(r == prev.push(brush_stamp(pointer, colors.last())));
        assert(r.take(tiles.len() as int) =~= prev.take(tiles.len() as int));
        Pixel::lemma_spec_new_fields(pointer, BRUSH_RADIUS, colors.last());
        assert forall|k: int| 0 <= k < colors.len() implies {
            let s = #[trigger] r[tiles.len() + k];
            &&& s is Stamp
            &&& s->Stamp_0.spec_center() == pointer
            &&& s->Stamp_0.spec_radius() == BRUSH_RADIUS
            &&& s->Stamp_0.spec_color() == colors[k]
        } by {
            if k < colors.len() - 1 {
                assert(r[tiles.len() + k] == prev[tiles.len() + k]);
                assert(before[k] == colors[k]);
            }
        }
    } else {
        assert(tiles.take(tiles.len() as int) =~= tiles);
    }
}

/// The line state and canvas after one line-tool frame.
pub open spec fn line_step(
    state: LineState,
    tiles: Seq<Shape>,
    pressed: bool,
    pointer: Point,
    color: Color,
) -> (LineState, Seq<Shape>) {
    if !pressed {
        (state, tiles)
    } else {
        match state {
            LineState::Firstpos => (LineState::Secondpos(pointer), tiles),
            LineState::Secondpos(anchor) => (
                LineState::Firstpos,
                tiles.push(Shape::Segment(anchor, pointer, color)),
            ),
        }
    }
}

/// Line tool: the first pointer-down edge captures an anchor; the next one
/// commits the segment from the anchor to the new point and starts over.
pub fn draw_line_after_inputs(
    tiles: &mut World,
    line_state: &mut LineState,
    pressed: bool,
    pointer: Point,
    color: &Color,
)
    ensures
        (*final(line_state), final(tiles)@) == line_step(
            *old(line_state),
            old(tiles)@,
            pressed,
            pointer,
            *color,
        ),
{
    if pressed {
        match *line_state {
            LineState::Firstpos => {
                *line_state = LineState::Secondpos(pointer);
            },
            LineState::Secondpos(anchor) => {
                tiles.append(Shape::Segment(anchor, pointer, *color));
                *line_state = LineState::Firstpos;
            },
        }
    }
}

/// `s` is the closed polygon through `vs` in `color`.
pub open spec fn is_polygon_of(s: Shape, vs: Seq<Point>, color: Color) -> bool {
    match s {
        Shape::Polygon(v, c) => v@ == vs && c == color,
        _ => false,
    }
}

/// Polygon tool, old and new vertex lists and canvases of one frame. A
/// pointer-down edge adds the pointer as a vertex. Then, if the closing
/// gesture came, the list is emptied, and it is committed as one closed
/// polygon if it holds at least the minimal number of vertices.
pub open spec fn polygon_step(
    verts: Seq<Point>,
    tiles: Seq<Shape>,
    verts2: Seq<Point>,
    tiles2: Seq<Shape>,
    pressed: bool,
    close: bool,
    pointer: Point,
    color: Color,
) -> bool {
    let captured = if pressed { verts.push(pointer) } else { verts };
    if !close {
        verts2 == captured && tiles2 == tiles
    } else if captured.len() >= MIN_POLYGON_VERTICES {
        &&& verts2 == Seq::<Point>::empty()
        &&& tiles2.len() == tiles.len() + 1
        &&& tiles2.drop_last() == tiles
        &&& is_polygon_of(tiles2.last(), captured, color)
    } else {
        verts2 == Seq::<Point>::empty() && tiles2 == tiles
    }
}

/// Polygon tool: see `polygon_step`. The closing gesture is a separate
/// signal of the frame (`close`), apart from the vertex clicks.
pub fn draw_polygon_after_inputs(
    tiles: &mut World,
    polygon: &mut PolygonState,
    pressed: bool,
    close: bool,
    pointer: Point,
    color: &Color,
)
    ensures
        polygon_step(
            old(polygon)@,
            old(tiles)@,
            final(polygon)@,
            final(tiles)@,
            pressed,
            close,
            pointer,
            *color,
        ),
{
    if pressed {
        polygon.vertices.push(pointer);
    }
    if close {
        let mut done: Vec<Point> = Vec::new();
        core::mem::swap(&mut done, &mut polygon.vertices);
        if done.len() >= MIN_POLYGON_VERTICES {
            tiles.append(Shape::Polygon(done, *color));
            assert(tiles@.drop_last() =~= old(tiles)@);
        }
    }
}

/// The canvas after one eraser frame: on a pointer-down edge, every shape hit
/// at the pointer is gone, and the others keep their order.
pub open spec fn erase_step(tiles: Seq<Shape>, pressed: bool, pointer: Point) -> Seq<Shape> {
    if pressed {
        survivors(tiles, HitAt { point: pointer })
    } else {
        tiles
    }
}

/// Eraser: removes, in one batch, every shape that the click hits.
pub fn erase(tiles: &mut World, pressed: bool, pointer: Point)
    ensures
        final(tiles)@ == erase_step(old(tiles)@, pressed, pointer),
{
    if pressed {
        tiles.remove_where(&HitAt { point: pointer });
    }
}

} // verus!
