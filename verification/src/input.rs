use vstd::prelude::*;

use crate::geometry::Point;
use crate::selection::Corners;
use crate::selection::SelectionBox;

verus! {

/// The state of the two mouse buttons for one frame, as the window
/// layer reports it: `left_just_pressed` and `left_just_released` hold
/// on the single frame of the edge, `left_pressed` on every frame the
/// button is down.
#[derive(Clone, Copy, Debug, PartialEq, Eq, Structural)]
pub struct MouseButtons {
    pub left_just_pressed: bool,
    pub left_pressed: bool,
    pub left_just_released: bool,
    pub right_just_pressed: bool,
}

/// What one frame of mouse input decides: the selection box to carry
/// into the next frame, the finished box to select with (when the
/// drag ended this frame), and whether a deselect was requested.
#[derive(Clone, Copy, Debug, PartialEq, Eq, Structural)]
pub struct InputOutcome {
    pub selection_box: SelectionBox,
    pub finished: Option<SelectionBox>,
    pub deselect: bool,
}

/// Where the drag stands after this frame's press and move: a fresh
/// left press anchors a new box at the cursor; while the button stays
/// down an existing box follows the cursor with its head; otherwise
/// the box is unchanged.
pub open spec fn box_after_drag(current: SelectionBox, buttons: MouseButtons, world: Point) -> SelectionBox {
    if buttons.left_just_pressed {
        SelectionBox { corners: Some(Corners { anchor: world, head: world }) }
    } else if buttons.left_pressed {
        match current.corners {
            None => current,
            Some(c) => SelectionBox { corners: Some(Corners { anchor: c.anchor, head: world }) },
        }
    } else {
        current
    }
}

/// Everything one frame of mouse input decides. With no cursor in the
/// window nothing happens. Otherwise the drag is advanced; releasing
/// the left button hands the dragged box out as finished and clears
/// it; pressing the right button requests a deselect and clears it.
pub open spec fn spec_input_step(
    current: SelectionBox,
    cursor: Option<Point>,
    buttons: MouseButtons,
) -> InputOutcome {
    match cursor {
        None => InputOutcome { selection_box: current, finished: None, deselect: false },
        Some(world) => {
            let dragged = box_after_drag(current, buttons, world);
            InputOutcome {
                selection_box: if buttons.left_just_released || buttons.right_just_pressed {
                    SelectionBox { corners: None }
                } else {
                    dragged
                },
                finished: if buttons.left_just_released {
                    Some(dragged)
                } else {
                    None
                },
                deselect: buttons.right_just_pressed,
            }
        },
    }
}

/// Advances the selection box by one frame of mouse input, where
/// `cursor` is the cursor's world position, absent when the cursor is
/// outside the window.
pub fn handle_mouse_input(
    current: SelectionBox,
    cursor: Option<Point>,
    buttons: MouseButtons,
) -> (r: InputOutcome)
    ensures
        r == spec_input_step(current, cursor, buttons),
{
    let world = match cursor {
        None => {
            return InputOutcome { selection_box: current, finished: None, deselect: false };
        },
        Some(w) => w,
    };

    let mut selection_box = current;

    if buttons.left_just_pressed {
        selection_box = SelectionBox { corners: Some(Corners { anchor: world, head: world }) };
    }

    if buttons.left_pressed {
        if let Some(c) = selection_box.corners {
            selection_box = SelectionBox {
                corners: Some(Corners { anchor: c.anchor, head: world }),
            };
        }
    }

    let mut finished: Option<SelectionBox> = None;
    if buttons.left_just_released {
        finished = Some(selection_box);
        selection_box = SelectionBox { corners: None };
    }

    let mut deselect = false;
    if buttons.right_just_pressed {
        deselect = true;
        selection_box = SelectionBox { corners: None };
    }

    InputOutcome { selection_box, finished, deselect }
}

} // verus!
