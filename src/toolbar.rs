use vstd::prelude::*;

use crate::geometry::{Point, Rect};

verus! {

/// The active tool.
#[derive(Clone, Copy, Debug, PartialEq, Eq, Structural)]
pub enum ToolbarState {
    Brush,
    Line,
    Poly,
    Erase,
}

/// The tool that the toolbar button at `index` selects, if any.
pub open spec fn tool_for_index(index: int) -> Option<ToolbarState> {
    if index == 0 {
        Some(ToolbarState::Brush)
    } else if index == 1 {
        Some(ToolbarState::Line)
    } else if index == 2 {
        Some(ToolbarState::Poly)
    } else if index == 3 {
        Some(ToolbarState::Erase)
    } else {
        None
    }
}

/// A toolbar button: a hit rectangle and a label.
#[derive(Clone, Debug, PartialEq)]
pub struct Button {
    pub rect: Rect,
    pub button_type: String,
}

impl Button {
    pub fn new(rect: Rect, button_type: String) -> (b: Button)
        ensures
            b.rect == rect,
            b.button_type@ == button_type@,
    {
        Button { rect, button_type }
    }

    /// The button is clicked in a frame with a pointer-down edge at a point
    /// inside its rectangle.
    pub open spec fn spec_is_clicked(&self, pressed: bool, pointer: Point) -> bool {
        pressed && self.rect.spec_contains(pointer)
    }

    pub fn is_clicked(&self, pressed: bool, pointer: &Point) -> (r: bool)
        ensures
            r == self.spec_is_clicked(pressed, *pointer),
    {
        pressed && self.rect.contains(pointer)
    }
}

/// The tool after the buttons `buttons` have been looked at in index order:
/// each clicked button with a tool sets it, so the last such one wins.
pub open spec fn toolbar_after(
    state: ToolbarState,
    buttons: Seq<Button>,
    pressed: bool,
    pointer: Point,
) -> ToolbarState
    decreases buttons.len(),
{
    if buttons.len() == 0 {
        state
    } else {
        let before = toolbar_after(state, buttons.drop_last(), pressed, pointer);
        let last = buttons.len() - 1;
        if buttons[last].spec_is_clicked(pressed, pointer) && tool_for_index(last) is Some {
            tool_for_index(last)->Some_0
        } else {
            before
        }
    }
}

/// Applies this frame's toolbar clicks to the active tool. Buttons are looked
/// at in index order, so of several clicked buttons the last one wins; a
/// button whose index maps to no tool changes nothing.
pub fn toolbar_input(tool_state: &mut ToolbarState, buttons: &[Button], pressed: bool, pointer: Point)
    ensures
        *final(tool_state) == toolbar_after(*old(tool_state), buttons@, pressed, pointer),
{
    let mut i: usize = 0;
    while i < buttons.len()
        invariant
            0 <= i <= buttons@.len(),
            *tool_state == toolbar_after(*old(tool_state), buttons@.take(i as int), pressed, pointer),
        decreases buttons@.len() - i,
    {
        proof {
            assert(buttons@.take(i + 1).drop_last() =~= buttons@.take(i as int));
        }
        if buttons[i].is_clicked(pressed, &pointer) {
            if i == 0 {
                *tool_state = ToolbarState::Brush;
            } else if i == 1 {
                *tool_state = ToolbarState::Line;
            } else if i == 2 {
                *tool_state = ToolbarState::Poly;
            } else if i == 3 {
                *tool_state = ToolbarState::Erase;
            }
        }
        i = i + 1;
    }
    assert(buttons@.take(buttons@.len() as int) =~= buttons@);
}

/// Buttons past the fourth select no tool, so they leave the state as it is.
proof fn lemma_later_buttons_keep(state: ToolbarState, buttons: Seq<Button>, pressed: bool, pointer: Point)
    requires
        buttons.len() >= 4,
    ensures
        toolbar_after(state, buttons, pressed, pointer)
            == toolbar_after(state, buttons.take(4), pressed, pointer),
    decreases buttons.len(),
{
    if buttons.len() > 4 {
        lemma_later_buttons_keep(state, buttons.drop_last(), pressed, pointer);
        assert(buttons.drop_last().take(4) =~= buttons.take(4));
    } else {
        assert(buttons.take(4) =~= buttons);
    }
}

/// A pointer-down edge inside the button at index three selects the eraser,
/// whatever tool was active before.
pub proof fn lemma_erase_button_selects_erase(
    state: ToolbarState,
    buttons: Seq<Button>,
    pressed: bool,
    pointer: Point,
)
    requires
        buttons.len() >= 4,
        buttons[3].spec_is_clicked(pressed, pointer),
    ensures
        toolbar_after(state, buttons, pressed, pointer) == ToolbarState::Erase,
{
    lemma_later_buttons_keep(state, buttons, pressed, pointer);
    assert(buttons.take(4).drop_last() =~= buttons.take(3));
}

} // verus!
