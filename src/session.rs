use vstd::prelude::*;

use crate::color::Color;
use crate::geometry::{Point, Rect};
use crate::toolbar::{toolbar_after, toolbar_input, Button, ToolbarState};
use crate::tools::{
    brush_step, draw_line_after_inputs, draw_polygon_after_inputs, draw_with_brush, erase,
    erase_step, line_step, polygon_step, LineState, PolygonState,
};
use crate::world::World;

verus! {

/// What the input layer reports for one frame.
#[derive(Clone, Copy, Debug, PartialEq, Eq, Structural)]
pub struct FrameInput {
    /// The pointer position.
    pub pointer: Point,
    /// The primary button went down this frame (an edge).
    pub pressed: bool,
    /// The primary button is down this frame (a level).
    pub held: bool,
    /// The polygon closing gesture came this frame.
    pub close: bool,
}

/// All mutable state of one painting session.
#[derive(Clone, Debug)]
pub struct Session {
    pub tool: ToolbarState,
    pub line: LineState,
    pub polygon: PolygonState,
    pub color: Color,
    pub world: World,
}

/// The point lies in one of the rectangles.
pub open spec fn in_any(rects: Seq<Rect>, p: Point) -> bool {
    exists|i: int| 0 <= i < rects.len() && #[trigger] rects[i].spec_contains(p)
}

/// Whether the point lies in one of the rectangles.
pub fn over_any(rects: &[Rect], p: &Point) -> (r: bool)
    ensures
        r == in_any(rects@, *p),
{
    let mut i: usize = 0;
    while i < rects.len()
        invariant
            0 <= i <= rects@.len(),
            forall|j: int| 0 <= j < i ==> !#[trigger] rects@[j].spec_contains(*p),
        decreases rects@.len() - i,
    {
        if rects[i].contains(p) {
            assert(rects@[i as int].spec_contains(*p));
            return true;
        }
        i = i + 1;
    }
    false
}

/// One frame of a session, from `s` to `t`. First the toolbar clicks pick
/// the tool; if that changes the tool, the pending line anchor and polygon
/// vertices are dropped. Then, unless the pointer is over a reserved region,
/// the tool now active runs on this frame's input.
pub open spec fn frame_step(
    s: Session,
    t: Session,
    input: FrameInput,
    buttons: Seq<Button>,
    reserved: Seq<Rect>,
) -> bool {
    let tool = toolbar_after(s.tool, buttons, input.pressed, input.pointer);
    let switched = tool != s.tool;
    let line = if switched { LineState::Firstpos } else { s.line };
    let verts = if switched { Seq::<Point>::empty() } else { s.polygon@ };
    let p = input.pointer;
    &&& t.tool == tool
    &&& t.color == s.color
    &&& if in_any(reserved, p) {
        t.line == line && t.polygon@ == verts && t.world@ == s.world@
    } else {
        match tool {
            ToolbarState::Brush => {
                &&& t.world@ == brush_step(s.world@, input.held, p, s.color)
                &&& t.line == line
                &&& t.polygon@ == verts
            },
            ToolbarState::Line => {
                &&& (t.line, t.world@) == line_step(line, s.world@, input.pressed, p, s.color)
                &&& t.polygon@ == verts
            },
            ToolbarState::Poly => {
                &&& polygon_step(
                    verts,
                    s.world@,
                    t.polygon@,
                    t.world@,
                    input.pressed,
                    input.close,
                    p,
                    s.color,
                )
                &&& t.line == line
            },
            ToolbarState::Erase => {
                &&& t.world@ == erase_step(s.world@, input.pressed, p)
                &&& t.line == line
                &&& t.polygon@ == verts
            },
        }
    }
}

/// A frame that changes the tool commits nothing that was pending: the line
/// anchor and the polygon vertices are dropped, and the line or polygon tool,
/// if it is the new one, starts from nothing and so adds no shape.
pub proof fn lemma_tool_switch_discards_pending(
    s: Session,
    t: Session,
    input: FrameInput,
    buttons: Seq<Button>,
    reserved: Seq<Rect>,
)
    requires
        frame_step(s, t, input, buttons, reserved),
        t.tool != s.tool,
    ensures
        t.tool != ToolbarState::Line ==> t.line == LineState::Firstpos,
        t.tool != ToolbarState::Poly ==> t.polygon@ == Seq::<Point>::empty(),
        t.tool == ToolbarState::Line || t.tool == ToolbarState::Poly ==> t.world@ == s.world@,
{
}

impl Session {
    /// A session with an empty canvas, no pending line or polygon, and the
    /// given initial tool and color.
    pub fn new(tool: ToolbarState, color: Color) -> (s: Session)
        ensures
            s.tool == tool,
            s.color == color,
            s.line == LineState::Firstpos,
            s.polygon@ == Seq::<Point>::empty(),
            s.world@ == Seq::<crate::shape::Shape>::empty(),
    {
        Session {
            tool,
            line: LineState::Firstpos,
            polygon: PolygonState::new(),
            color,
            world: World::new(),
        }
    }

    /// Sets the active color, as read from the color widgets this frame.
    pub fn set_color(&mut self, color: Color)
        ensures
            final(self).color == color,
            final(self).tool == old(self).tool,
            final(self).line == old(self).line,
            final(self).polygon@ == old(self).polygon@,
            final(self).world@ == old(self).world@,
    {
        self.color = color;
    }

    /// Runs one frame: see `frame_step`.
    pub fn frame(&mut self, input: &FrameInput, buttons: &[Button], reserved: &[Rect])
        ensures
            frame_step(*old(self), *final(self), *input, buttons@, reserved@),
    {
        let prior = self.tool;
        toolbar_input(&mut self.tool, buttons, input.pressed, input.pointer);
        if self.tool != prior {
            self.line = LineState::Firstpos;
            self.polygon.clear();
        }
        if !over_any(reserved, &input.pointer) {
            let color = self.color;
            match self.tool {
                ToolbarState::Brush => {
                    draw_with_brush(&mut self.world, input.held, input.pointer, &color);
                },
                ToolbarState::Line => {
                    draw_line_after_inputs(
                        &mut self.world,
                        &mut self.line,
                        input.pressed,
                        input.pointer,
                        &color,
                    );
                },
                ToolbarState::Poly => {
                    draw_polygon_after_inputs(
                        &mut self.world,
                        &mut self.polygon,
                        input.pressed,
                        input.close,
                        input.pointer,
                        &color,
                    );
                },
                ToolbarState::Erase => {
                    erase(&mut self.world, input.pressed, input.pointer);
                },
            }
        }
    }
}

} // verus!
