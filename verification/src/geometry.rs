use vstd::prelude::*;

verus! {

/// Largest magnitude a world coordinate may take. Keeping both
/// coordinates of a point within this bound means that any sum or
/// difference of two coordinates still fits in `i64`.
pub const COORD_LIMIT: i64 = 0x2000_0000_0000_0000;

/// A position, in whole world-coordinate units: x grows rightward,
/// y grows upward.
#[derive(Clone, Copy, Debug, PartialEq, Eq, Structural)]
pub struct Point {
    pub x: i64,
    pub y: i64,
}

impl Point {
    /// Both coordinates are small enough that sums and differences of
    /// two in-bounds points cannot overflow `i64`.
    pub open spec fn in_bounds(self) -> bool {
        &&& -COORD_LIMIT <= self.x <= COORD_LIMIT
        &&& -COORD_LIMIT <= self.y <= COORD_LIMIT
    }

    pub fn new(x: i64, y: i64) -> (r: Point)
        ensures
            r == (Point { x, y }),
    {
        Point { x, y }
    }
}

/// Halving as `i64` division computes it: truncated toward zero.
pub open spec fn half(a: int) -> int {
    if a >= 0 {
        a / 2
    } else {
        -((-a) / 2)
    }
}

/// Converts a cursor position in window coordinates (origin at the
/// window's top-left corner, y growing downward) to world coordinates
/// (origin at the window's centre, y growing upward): subtract half
/// the window size on each axis, then flip the y axis.
pub fn cursor_to_world(cursor: Point, width: i64, height: i64) -> (r: Point)
    requires
        cursor.in_bounds(),
        0 <= width <= COORD_LIMIT,
        0 <= height <= COORD_LIMIT,
    ensures
        r.x == cursor.x - half(width as int),
        r.y == half(height as int) - cursor.y,
{
    Point { x: cursor.x - width / 2, y: height / 2 - cursor.y }
}

} // verus!
