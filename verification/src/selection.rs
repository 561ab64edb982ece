use vstd::prelude::*;

use crate::geometry::Point;
use crate::geometry::half;

verus! {

/// The two corners of a drag: the corner captured when the drag
/// started (`anchor`) and the corner under the cursor now (`head`).
#[derive(Clone, Copy, Debug, PartialEq, Eq, Structural)]
pub struct Corners {
    pub anchor: Point,
    pub head: Point,
}

/// The in-progress selection rectangle: its two corners, or `None`
/// when no drag is in progress.
#[derive(Clone, Copy, Debug, PartialEq, Eq, Structural)]
pub struct SelectionBox {
    pub corners: Option<Corners>,
}

/// How the on-screen rectangle mesh is placed to show a selection
/// box: the centre of the box, and its extent along each axis (the
/// head corner minus the anchor corner, so either extent may be
/// negative).
#[derive(Clone, Copy, Debug, PartialEq, Eq, Structural)]
pub struct DisplayRect {
    pub center: Point,
    pub scale: Point,
}

impl SelectionBox {
    /// Both corners, when present, are in bounds, so the display
    /// arithmetic on them cannot overflow.
    pub open spec fn wf(self) -> bool {
        match self.corners {
            None => true,
            Some(c) => c.anchor.in_bounds() && c.head.in_bounds(),
        }
    }

    /// Containment in the box. The comparisons are strict and
    /// oriented: x must grow from `anchor` to `head` and y must fall,
    /// so a drag in any other direction describes an empty box (see
    /// `lemma_inverted_box_is_empty`).
    pub open spec fn spec_within(self, pos: Point) -> bool {
        match self.corners {
            None => false,
            Some(c) => {
                &&& c.anchor.x < pos.x < c.head.x
                &&& c.anchor.y > pos.y && pos.y > c.head.y
            },
        }
    }

    /// Midpoint of the two corners on each axis, truncated toward
    /// zero, as the displayed rectangle's centre.
    pub open spec fn spec_display_rect(self) -> Option<DisplayRect> {
        match self.corners {
            None => None,
            Some(c) => Some(
                DisplayRect {
                    center: Point {
                        x: half(c.anchor.x + c.head.x) as i64,
                        y: half(c.anchor.y + c.head.y) as i64,
                    },
                    scale: Point {
                        x: (c.head.x - c.anchor.x) as i64,
                        y: (c.head.y - c.anchor.y) as i64,
                    },
                },
            ),
        }
    }

    /// Whether `pos` lies strictly inside the selection rectangle; an
    /// absent box contains nothing.
    pub fn within_selection(&self, pos: Point) -> (r: bool)
        ensures
            r == self.spec_within(pos),
    {
        match self.corners {
            None => false,
            Some(c) => {
                let within_x = c.anchor.x < pos.x && pos.x < c.head.x;
                let within_y = c.anchor.y > pos.y && pos.y > c.head.y;
                within_x && within_y
            },
        }
    }

    /// Geometry for the rectangle mesh that pictures the box:
    /// `None` while no drag is in progress (the mesh is hidden and
    /// left where it was), otherwise the box's centre and extent.
    pub fn display_rect(&self) -> (r: Option<DisplayRect>)
        requires
            self.wf(),
        ensures
            r == self.spec_display_rect(),
    {
        match self.corners {
            None => None,
            Some(c) => Some(
                DisplayRect {
                    center: Point { x: (c.anchor.x + c.head.x) / 2, y: (c.anchor.y + c.head.y) / 2 },
                    scale: Point { x: c.head.x - c.anchor.x, y: c.head.y - c.anchor.y },
                },
            ),
        }
    }
}

impl Default for SelectionBox {
    /// The initial state: no drag in progress.
    fn default() -> (r: SelectionBox)
        ensures
            r.corners is None,
    {
        SelectionBox { corners: None }
    }
}

/// A drag whose head did not move strictly rightward and strictly
/// downward-in-screen-space from its anchor describes an empty box:
/// no point at all is within it.
pub proof fn lemma_inverted_box_is_empty(sel: SelectionBox, pos: Point)
    requires
        sel.corners matches Some(c) && (c.anchor.x >= c.head.x || c.anchor.y <= c.head.y),
    ensures
        !sel.spec_within(pos),
{
}

/// Points on the box's edge are never selected: all four comparisons
/// in the containment test are strict.
pub proof fn lemma_boundary_excluded(sel: SelectionBox, pos: Point)
    requires
        sel.corners matches Some(c) && (pos.x == c.anchor.x || pos.x == c.head.x
            || pos.y == c.anchor.y || pos.y == c.head.y),
    ensures
        !sel.spec_within(pos),
{
}

} // verus!
