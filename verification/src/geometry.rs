//! Plain rectangles in logical coordinates, and the bounds under which all of
//! the crate's coordinate arithmetic stays within `i32`.

use vstd::prelude::*;

verus! {

/// Every coordinate and size this crate works with stays within this bound,
/// so that sums and differences of a few of them fit in `i32`.
pub const MAX_COORD: i32 = 1000000;

/// An axis-aligned rectangle: location of the top-left corner plus size.
#[derive(Clone, Copy, Debug, PartialEq, Eq, Structural)]
pub struct Rect {
    pub x: i32,
    pub y: i32,
    pub w: i32,
    pub h: i32,
}

/// Mathematical view of a rectangle, with unbounded integer fields.
pub ghost struct RectI {
    pub x: int,
    pub y: int,
    pub w: int,
    pub h: int,
}

impl Rect {
    pub open spec fn view(self) -> RectI {
        RectI { x: self.x as int, y: self.y as int, w: self.w as int, h: self.h as int }
    }

    pub fn new(x: i32, y: i32, w: i32, h: i32) -> (r: Rect)
        ensures
            r@ == (RectI { x: x as int, y: y as int, w: w as int, h: h as int }),
    {
        Rect { x, y, w, h }
    }

    /// Whether `inner` lies entirely within `self`.
    pub fn contains_rect(&self, inner: &Rect) -> (r: bool)
        ensures
            r == rect_contains(self@, inner@),
    {
        let ox: i64 = self.x as i64;
        let oy: i64 = self.y as i64;
        self.x <= inner.x && self.y <= inner.y
            && (inner.x as i64) + (inner.w as i64) <= ox + (self.w as i64)
            && (inner.y as i64) + (inner.h as i64) <= oy + (self.h as i64)
    }
}

/// `inner` lies entirely within `outer`.
pub open spec fn rect_contains(outer: RectI, inner: RectI) -> bool {
    &&& outer.x <= inner.x
    &&& outer.y <= inner.y
    &&& inner.x + inner.w <= outer.x + outer.w
    &&& inner.y + inner.h <= outer.y + outer.h
}

/// The rectangle has a non-negative size and all of its coordinates are
/// within [`MAX_COORD`], leaving room for the arithmetic done on it.
pub open spec fn rect_bounded(r: RectI) -> bool {
    &&& -MAX_COORD <= r.x <= MAX_COORD
    &&& -MAX_COORD <= r.y <= MAX_COORD
    &&& 0 <= r.w <= MAX_COORD
    &&& 0 <= r.h <= MAX_COORD
}

} // verus!
