//! Axis-aligned rectangles in pixel space.

use vstd::prelude::*;

verus! {

/// Largest pixel coordinate the simulation works with.  Keeping every edge of
/// every rectangle within `[0, COORD_LIMIT]` (and every anchor within
/// `[-COORD_LIMIT, COORD_LIMIT]`) leaves ample headroom for 64-bit edge
/// arithmetic.
pub const COORD_LIMIT: i64 = 0x7fff_ffff;

/// An axis-aligned rectangle: `(x, y)` is the top-left corner, `width` and
/// `height` its extent.  The right edge sits at `x + width` and the bottom
/// edge at `y + height`.
#[derive(Clone, Copy, Debug, PartialEq, Eq, Structural)]
pub struct Rect {
    pub x: i64,
    pub y: i64,
    pub width: i64,
    pub height: i64,
}

/// The four edge coordinates `(left, top, right, bottom)` of a rectangle.
pub open spec fn rect_edges(r: Rect) -> (int, int, int, int) {
    (r.x as int, r.y as int, r.x + r.width, r.y + r.height)
}

impl Rect {
    /// A rectangle is well formed when its extent is non-negative and all of
    /// its edges stay within the coordinate limit.
    pub open spec fn wf(self) -> bool {
        &&& 0 <= self.width
        &&& 0 <= self.height
        &&& -COORD_LIMIT <= self.x
        &&& self.x + self.width <= COORD_LIMIT
        &&& -COORD_LIMIT <= self.y
        &&& self.y + self.height <= COORD_LIMIT
    }

    pub fn new(x: i64, y: i64, width: i64, height: i64) -> (r: Rect)
        requires
            0 <= width,
            0 <= height,
            -COORD_LIMIT <= x,
            x + width <= COORD_LIMIT,
            -COORD_LIMIT <= y,
            y + height <= COORD_LIMIT,
        ensures
            r == (Rect { x, y, width, height }),
            r.wf(),
    {
        Rect { x, y, width, height }
    }

    pub fn left(&self) -> (v: i64)
        ensures
            v == self.x,
    {
        self.x
    }

    pub fn top(&self) -> (v: i64)
        ensures
            v == self.y,
    {
        self.y
    }

    pub fn right(&self) -> (v: i64)
        requires
            self.wf(),
        ensures
            v == self.x + self.width,
    {
        self.x + self.width
    }

    pub fn bottom(&self) -> (v: i64)
        requires
            self.wf(),
        ensures
            v == self.y + self.height,
    {
        self.y + self.height
    }

    pub fn width(&self) -> (v: i64)
        ensures
            v == self.width,
    {
        self.width
    }

    pub fn height(&self) -> (v: i64)
        ensures
            v == self.height,
    {
        self.height
    }
}

} // verus!
