//! Popup positioner model and geometry-constraint solving.
//!
//! A positioner describes how a popup is anchored to a rectangle of its
//! parent and what adjustments (flip, slide, resize, per axis) may be used
//! to fit it into a target region. The solving rules are the windowing
//! protocol's: anchored placement first, then per axis — independently —
//! a flip that is kept only if it removes the constraint, then a slide
//! that brings the leading edge into the target, then a resize that clamps
//! each overflowing edge unless that would leave nothing of the popup.
//! On top of the solve sits the compositor's padded-placement policy:
//! first try a slightly inset target without resizing, and fall back to
//! the full target with the caller's own adjustment flags.

use vstd::prelude::*;

use crate::geometry::{rect_bounded, rect_contains, Rect, RectI, MAX_COORD};

verus! {

/// Inset used for the preferred, padded popup placement.
pub const PADDING: i32 = 8;

/// Which point of the anchor rectangle the popup is anchored to.
#[derive(Clone, Copy, Debug, PartialEq, Eq, Structural)]
pub enum AnchorEdge {
    Center,
    Top,
    Bottom,
    Left,
    Right,
    TopLeft,
    BottomLeft,
    TopRight,
    BottomRight,
}

/// The direction the popup extends away from its anchor point.
#[derive(Clone, Copy, Debug, PartialEq, Eq, Structural)]
pub enum GravityEdge {
    Center,
    Top,
    Bottom,
    Left,
    Right,
    TopLeft,
    BottomLeft,
    TopRight,
    BottomRight,
}

/// A popup positioner: the client-supplied placement configuration.
#[derive(Clone, Copy, Debug)]
pub struct Positioner {
    /// Size of the rectangle to be positioned.
    pub rect_w: i32,
    pub rect_h: i32,
    /// Anchor rectangle, in the parent surface's coordinates.
    pub anchor_rect: Rect,
    pub anchor: AnchorEdge,
    pub gravity: GravityEdge,
    /// Permitted constraint adjustments, per axis.
    pub flip_x: bool,
    pub flip_y: bool,
    pub slide_x: bool,
    pub slide_y: bool,
    pub resize_x: bool,
    pub resize_y: bool,
    /// Placement offset relative to the anchor point.
    pub offset_x: i32,
    pub offset_y: i32,
    /// Whether the popup asked to be re-positioned when its parent moves.
    pub reactive: bool,
}

/// Mathematical view of a positioner.
pub ghost struct PositionerI {
    pub rect_w: int,
    pub rect_h: int,
    pub anchor_rect: RectI,
    pub anchor: AnchorEdge,
    pub gravity: GravityEdge,
    pub flip_x: bool,
    pub flip_y: bool,
    pub slide_x: bool,
    pub slide_y: bool,
    pub resize_x: bool,
    pub resize_y: bool,
    pub offset_x: int,
    pub offset_y: int,
    pub reactive: bool,
}

impl Positioner {
    pub open spec fn view(self) -> PositionerI {
        PositionerI {
            rect_w: self.rect_w as int,
            rect_h: self.rect_h as int,
            anchor_rect: self.anchor_rect@,
            anchor: self.anchor,
            gravity: self.gravity,
            flip_x: self.flip_x,
            flip_y: self.flip_y,
            slide_x: self.slide_x,
            slide_y: self.slide_y,
            resize_x: self.resize_x,
            resize_y: self.resize_y,
            offset_x: self.offset_x as int,
            offset_y: self.offset_y as int,
            reactive: self.reactive,
        }
    }

    /// The same positioner with resize adjustments disabled on both axes.
    pub fn without_resize(&self) -> (r: Positioner)
        ensures
            r@ == spec_no_resize(self@),
    {
        let mut r = *self;
        r.resize_x = false;
        r.resize_y = false;
        r
    }
}

pub open spec fn positioner_bounded(p: PositionerI) -> bool {
    &&& 0 <= p.rect_w <= MAX_COORD
    &&& 0 <= p.rect_h <= MAX_COORD
    &&& rect_bounded(p.anchor_rect)
    &&& -MAX_COORD <= p.offset_x <= MAX_COORD
    &&& -MAX_COORD <= p.offset_y <= MAX_COORD
}

/// Targets handed to the solver: a padded target may stick out of the
/// caller's coordinate bound by one inset on each side.
pub open spec fn rect_in_solver_range(t: RectI) -> bool {
    &&& -MAX_COORD - 2 * PADDING <= t.x <= MAX_COORD + 2 * PADDING
    &&& -MAX_COORD - 2 * PADDING <= t.y <= MAX_COORD + 2 * PADDING
    &&& 0 <= t.w <= MAX_COORD
    &&& 0 <= t.h <= MAX_COORD
}

pub open spec fn spec_no_resize(p: PositionerI) -> PositionerI {
    PositionerI { resize_x: false, resize_y: false, ..p }
}

pub open spec fn anchor_on_left(a: AnchorEdge) -> bool {
    a == AnchorEdge::Left || a == AnchorEdge::TopLeft || a == AnchorEdge::BottomLeft
}

pub open spec fn anchor_on_right(a: AnchorEdge) -> bool {
    a == AnchorEdge::Right || a == AnchorEdge::TopRight || a == AnchorEdge::BottomRight
}

pub open spec fn anchor_on_top(a: AnchorEdge) -> bool {
    a == AnchorEdge::Top || a == AnchorEdge::TopLeft || a == AnchorEdge::TopRight
}

pub open spec fn anchor_on_bottom(a: AnchorEdge) -> bool {
    a == AnchorEdge::Bottom || a == AnchorEdge::BottomLeft || a == AnchorEdge::BottomRight
}

pub open spec fn gravity_pulls_left(g: GravityEdge) -> bool {
    g == GravityEdge::Left || g == GravityEdge::TopLeft || g == GravityEdge::BottomLeft
}

pub open spec fn gravity_pulls_right(g: GravityEdge) -> bool {
    g == GravityEdge::Right || g == GravityEdge::TopRight || g == GravityEdge::BottomRight
}

pub open spec fn gravity_pulls_up(g: GravityEdge) -> bool {
    g == GravityEdge::Top || g == GravityEdge::TopLeft || g == GravityEdge::TopRight
}

pub open spec fn gravity_pulls_down(g: GravityEdge) -> bool {
    g == GravityEdge::Bottom || g == GravityEdge::BottomLeft || g == GravityEdge::BottomRight
}

/// The anchor point derived from the anchor rectangle and the anchor edges:
/// the named corner, the midpoint of the named edge, or the center.
pub open spec fn spec_anchor_point_x(p: PositionerI) -> int {
    p.anchor_rect.x + if anchor_on_left(p.anchor) {
        0
    } else if anchor_on_right(p.anchor) {
        p.anchor_rect.w
    } else {
        p.anchor_rect.w / 2
    }
}

pub open spec fn spec_anchor_point_y(p: PositionerI) -> int {
    p.anchor_rect.y + if anchor_on_top(p.anchor) {
        0
    } else if anchor_on_bottom(p.anchor) {
        p.anchor_rect.h
    } else {
        p.anchor_rect.h / 2
    }
}

/// The popup geometry before any constraint adjustment: the popup's
/// rectangle placed at offset plus anchor point, pulled in the gravity's
/// direction (centered over the anchor point on an axis without gravity).
pub open spec fn spec_initial_geometry(p: PositionerI) -> RectI {
    RectI {
        x: p.offset_x + spec_anchor_point_x(p) - if gravity_pulls_left(p.gravity) {
            p.rect_w
        } else if gravity_pulls_right(p.gravity) {
            0
        } else {
            p.rect_w / 2
        },
        y: p.offset_y + spec_anchor_point_y(p) - if gravity_pulls_up(p.gravity) {
            p.rect_h
        } else if gravity_pulls_down(p.gravity) {
            0
        } else {
            p.rect_h / 2
        },
        w: p.rect_w,
        h: p.rect_h,
    }
}

/// The anchor edges mirrored across the vertical axis.
pub open spec fn spec_flip_anchor_x(a: AnchorEdge) -> AnchorEdge {
    match a {
        AnchorEdge::Left => AnchorEdge::Right,
        AnchorEdge::Right => AnchorEdge::Left,
        AnchorEdge::TopLeft => AnchorEdge::TopRight,
        AnchorEdge::TopRight => AnchorEdge::TopLeft,
        AnchorEdge::BottomLeft => AnchorEdge::BottomRight,
        AnchorEdge::BottomRight => AnchorEdge::BottomLeft,
        other => other,
    }
}

/// The anchor edges mirrored across the horizontal axis.
pub open spec fn spec_flip_anchor_y(a: AnchorEdge) -> AnchorEdge {
    match a {
        AnchorEdge::Top => AnchorEdge::Bottom,
        AnchorEdge::Bottom => AnchorEdge::Top,
        AnchorEdge::TopLeft => AnchorEdge::BottomLeft,
        AnchorEdge::BottomLeft => AnchorEdge::TopLeft,
        AnchorEdge::TopRight => AnchorEdge::BottomRight,
        AnchorEdge::BottomRight => AnchorEdge::TopRight,
        other => other,
    }
}

/// The gravity mirrored across the vertical axis.
pub open spec fn spec_flip_gravity_x(g: GravityEdge) -> GravityEdge {
    match g {
        GravityEdge::Left => GravityEdge::Right,
        GravityEdge::Right => GravityEdge::Left,
        GravityEdge::TopLeft => GravityEdge::TopRight,
        GravityEdge::TopRight => GravityEdge::TopLeft,
        GravityEdge::BottomLeft => GravityEdge::BottomRight,
        GravityEdge::BottomRight => GravityEdge::BottomLeft,
        other => other,
    }
}

/// The gravity mirrored across the horizontal axis.
pub open spec fn spec_flip_gravity_y(g: GravityEdge) -> GravityEdge {
    match g {
        GravityEdge::Top => GravityEdge::Bottom,
        GravityEdge::Bottom => GravityEdge::Top,
        GravityEdge::TopLeft => GravityEdge::BottomLeft,
        GravityEdge::BottomLeft => GravityEdge::TopLeft,
        GravityEdge::TopRight => GravityEdge::BottomRight,
        GravityEdge::BottomRight => GravityEdge::TopRight,
        other => other,
    }
}

/// The positioner with anchor and gravity flipped on the x axis. The y
/// placement of its anchored geometry is unchanged.
pub open spec fn spec_flip_x(p: PositionerI) -> PositionerI {
    PositionerI {
        anchor: spec_flip_anchor_x(p.anchor),
        gravity: spec_flip_gravity_x(p.gravity),
        ..p
    }
}

/// The positioner with anchor and gravity flipped on the y axis.
pub open spec fn spec_flip_y(p: PositionerI) -> PositionerI {
    PositionerI {
        anchor: spec_flip_anchor_y(p.anchor),
        gravity: spec_flip_gravity_y(p.gravity),
        ..p
    }
}

/// The popup's `[pos, pos + size)` span overflows the target's
/// `[t0, t0 + tsize)` span on this axis.
pub open spec fn spec_constrained(pos: int, size: int, t0: int, tsize: int) -> bool {
    t0 - pos > 0 || pos + size - (t0 + tsize) > 0
}

/// Sliding on one axis: a popup sticking out on the leading (low) side is
/// pushed to the target's edge; one sticking out on the trailing side is
/// pulled back, but never past the leading edge.
pub open spec fn spec_slide(pos: int, size: int, t0: int, tsize: int) -> int {
    let over_low = t0 - pos;
    let over_high = pos + size - (t0 + tsize);
    if over_low > 0 {
        pos + over_low
    } else if over_high > 0 {
        pos - (if over_high <= -over_low {
            over_high
        } else {
            -over_low
        })
    } else {
        pos
    }
}

/// One axis of the constraint solve: flip (kept only when it removes the
/// constraint), then slide, then resize. A resize clamps an overflowing
/// edge only while the overflow is smaller than the popup's extent, so an
/// entirely-outside popup is never clamped to nothing.
pub open spec fn spec_solve_axis(
    flip: bool,
    slide: bool,
    resize: bool,
    anchored: int,
    flipped: int,
    size: int,
    t0: int,
    tsize: int,
) -> (int, int) {
    let pos1 = if spec_constrained(anchored, size, t0, tsize) && flip && !spec_constrained(
        flipped,
        size,
        t0,
        tsize,
    ) {
        flipped
    } else {
        anchored
    };
    let pos2 = if spec_constrained(pos1, size, t0, tsize) && slide {
        spec_slide(pos1, size, t0, tsize)
    } else {
        pos1
    };
    let over_low = t0 - pos2;
    let over_high = pos2 + size - (t0 + tsize);
    let pos3 = if resize && over_low > 0 && over_low < size {
        pos2 + over_low
    } else {
        pos2
    };
    let size3 = if resize && over_low > 0 && over_low < size {
        size - over_low
    } else {
        size
    };
    let size4 = if resize && over_high > 0 && over_high < size3 {
        size3 - over_high
    } else {
        size3
    };
    (pos3, size4)
}

/// The constraint solve: the anchored geometry adjusted per axis,
/// independently, with the axis's own flip, slide and resize permissions.
pub open spec fn solve_of(p: PositionerI, t: RectI) -> RectI {
    let g = spec_initial_geometry(p);
    let flipped_x = spec_initial_geometry(spec_flip_x(p)).x;
    let flipped_y = spec_initial_geometry(spec_flip_y(p)).y;
    let xw = spec_solve_axis(p.flip_x, p.slide_x, p.resize_x, g.x, flipped_x, p.rect_w, t.x, t.w);
    let yh = spec_solve_axis(p.flip_y, p.slide_y, p.resize_y, g.y, flipped_y, p.rect_h, t.y, t.h);
    RectI { x: xw.0, y: yh.0, w: xw.1, h: yh.1 }
}

/// The popup geometry before any constraint adjustment, as defined by
/// [`spec_initial_geometry`].
pub(crate) fn initial_geometry(p: &Positioner) -> (r: Rect)
    requires
        positioner_bounded(p@),
    ensures
        r@ == spec_initial_geometry(p@),
        -3 * MAX_COORD <= r.x <= 3 * MAX_COORD,
        -3 * MAX_COORD <= r.y <= 3 * MAX_COORD,
        r.w == p.rect_w,
        r.h == p.rect_h,
{
    let ax: i32 = p.anchor_rect.x + if p.anchor == AnchorEdge::Left || p.anchor
        == AnchorEdge::TopLeft || p.anchor == AnchorEdge::BottomLeft {
        0
    } else if p.anchor == AnchorEdge::Right || p.anchor == AnchorEdge::TopRight || p.anchor
        == AnchorEdge::BottomRight {
        p.anchor_rect.w
    } else {
        p.anchor_rect.w / 2
    };
    let ay: i32 = p.anchor_rect.y + if p.anchor == AnchorEdge::Top || p.anchor
        == AnchorEdge::TopLeft || p.anchor == AnchorEdge::TopRight {
        0
    } else if p.anchor == AnchorEdge::Bottom || p.anchor == AnchorEdge::BottomLeft || p.anchor
        == AnchorEdge::BottomRight {
        p.anchor_rect.h
    } else {
        p.anchor_rect.h / 2
    };
    let x: i32 = p.offset_x + ax - if p.gravity == GravityEdge::Left || p.gravity
        == GravityEdge::TopLeft || p.gravity == GravityEdge::BottomLeft {
        p.rect_w
    } else if p.gravity == GravityEdge::Right || p.gravity == GravityEdge::TopRight || p.gravity
        == GravityEdge::BottomRight {
        0
    } else {
        p.rect_w / 2
    };
    let y: i32 = p.offset_y + ay - if p.gravity == GravityEdge::Top || p.gravity
        == GravityEdge::TopLeft || p.gravity == GravityEdge::TopRight {
        p.rect_h
    } else if p.gravity == GravityEdge::Bottom || p.gravity == GravityEdge::BottomLeft
        || p.gravity == GravityEdge::BottomRight {
        0
    } else {
        p.rect_h / 2
    };
    Rect { x, y, w: p.rect_w, h: p.rect_h }
}

/// The positioner with anchor and gravity mirrored on the x axis.
fn flip_positioner_x(p: &Positioner) -> (r: Positioner)
    ensures
        r@ == spec_flip_x(p@),
{
    let mut r = *p;
    r.anchor = match p.anchor {
        AnchorEdge::Left => AnchorEdge::Right,
        AnchorEdge::Right => AnchorEdge::Left,
        AnchorEdge::TopLeft => AnchorEdge::TopRight,
        AnchorEdge::TopRight => AnchorEdge::TopLeft,
        AnchorEdge::BottomLeft => AnchorEdge::BottomRight,
        AnchorEdge::BottomRight => AnchorEdge::BottomLeft,
        other => other,
    };
    r.gravity = match p.gravity {
        GravityEdge::Left => GravityEdge::Right,
        GravityEdge::Right => GravityEdge::Left,
        GravityEdge::TopLeft => GravityEdge::TopRight,
        GravityEdge::TopRight => GravityEdge::TopLeft,
        GravityEdge::BottomLeft => GravityEdge::BottomRight,
        GravityEdge::BottomRight => GravityEdge::BottomLeft,
        other => other,
    };
    r
}

/// The positioner with anchor and gravity mirrored on the y axis.
fn flip_positioner_y(p: &Positioner) -> (r: Positioner)
    ensures
        r@ == spec_flip_y(p@),
{
    let mut r = *p;
    r.anchor = match p.anchor {
        AnchorEdge::Top => AnchorEdge::Bottom,
        AnchorEdge::Bottom => AnchorEdge::Top,
        AnchorEdge::TopLeft => AnchorEdge::BottomLeft,
        AnchorEdge::BottomLeft => AnchorEdge::TopLeft,
        AnchorEdge::TopRight => AnchorEdge::BottomRight,
        AnchorEdge::BottomRight => AnchorEdge::TopRight,
        other => other,
    };
    r.gravity = match p.gravity {
        GravityEdge::Top => GravityEdge::Bottom,
        GravityEdge::Bottom => GravityEdge::Top,
        GravityEdge::TopLeft => GravityEdge::BottomLeft,
        GravityEdge::BottomLeft => GravityEdge::TopLeft,
        GravityEdge::TopRight => GravityEdge::BottomRight,
        GravityEdge::BottomRight => GravityEdge::TopRight,
        other => other,
    };
    r
}

/// One axis of the constraint solve, as in [`spec_solve_axis`]. When both
/// slide and resize are permitted and the target's extent is positive, the
/// result lies within the target on this axis.
fn solve_axis(
    flip: bool,
    slide: bool,
    resize: bool,
    anchored: i32,
    flipped: i32,
    size: i32,
    t0: i32,
    tsize: i32,
) -> (r: (i32, i32))
    requires
        -3 * MAX_COORD <= anchored <= 3 * MAX_COORD,
        -3 * MAX_COORD <= flipped <= 3 * MAX_COORD,
        0 <= size <= MAX_COORD,
        -MAX_COORD - 2 * PADDING <= t0 <= MAX_COORD + 2 * PADDING,
        0 <= tsize <= MAX_COORD,
    ensures
        r.0 == spec_solve_axis(flip, slide, resize, anchored as int, flipped as int, size as int, t0 as int, tsize as int).0,
        r.1 == spec_solve_axis(flip, slide, resize, anchored as int, flipped as int, size as int, t0 as int, tsize as int).1,
        !resize ==> r.1 == size,
        (!flip && !slide && !resize) ==> r.0 == anchored,
        (slide && resize && tsize >= 1) ==> t0 <= r.0 && r.0 + r.1 <= t0 + tsize,
{
    let mut pos: i32 = anchored;
    if constrained(anchored, size, t0, tsize) && flip && !constrained(flipped, size, t0, tsize) {
        pos = flipped;
    }
    if constrained(pos, size, t0, tsize) && slide {
        let over_low = t0 - pos;
        let over_high = pos + size - (t0 + tsize);
        if over_low > 0 {
            pos = pos + over_low;
        } else if over_high > 0 {
            let shift = if over_high <= 0 - over_low {
                over_high
            } else {
                0 - over_low
            };
            pos = pos - shift;
        }
    }
    let over_low = t0 - pos;
    let over_high = pos + size - (t0 + tsize);
    let mut out_size: i32 = size;
    if resize && over_low > 0 && over_low < size {
        pos = pos + over_low;
        out_size = size - over_low;
    }
    if resize && over_high > 0 && over_high < out_size {
        out_size = out_size - over_high;
    }
    (pos, out_size)
}

/// Whether the popup's span overflows the target's span on one axis.
fn constrained(pos: i32, size: i32, t0: i32, tsize: i32) -> (r: bool)
    requires
        -4 * MAX_COORD <= pos <= 4 * MAX_COORD,
        0 <= size <= MAX_COORD,
        -MAX_COORD - 2 * PADDING <= t0 <= MAX_COORD + 2 * PADDING,
        0 <= tsize <= MAX_COORD,
    ensures
        r == spec_constrained(pos as int, size as int, t0 as int, tsize as int),
{
    t0 - pos > 0 || pos + size - (t0 + tsize) > 0
}

/// Solves the popup's placement against a target rectangle, per
/// [`solve_of`]. Sizes are changed only by a resize adjustment; an axis
/// with no adjustment permitted keeps its anchored position; and when both
/// slide and resize are permitted on an axis whose target extent is
/// positive, the result lies within the target on that axis.
fn solve(p: &Positioner, target: &Rect) -> (r: Rect)
    requires
        positioner_bounded(p@),
        rect_in_solver_range(target@),
    ensures
        r@ == solve_of(p@, target@),
        !p@.resize_x ==> r@.w == p@.rect_w,
        !p@.resize_y ==> r@.h == p@.rect_h,
        (!p@.flip_x && !p@.slide_x && !p@.resize_x) ==> r@.x == spec_initial_geometry(p@).x,
        (!p@.flip_y && !p@.slide_y && !p@.resize_y) ==> r@.y == spec_initial_geometry(p@).y,
        (p@.slide_x && p@.resize_x && target@.w >= 1) ==> target@.x <= r@.x && r@.x + r@.w
            <= target@.x + target@.w,
        (p@.slide_y && p@.resize_y && target@.h >= 1) ==> target@.y <= r@.y && r@.y + r@.h
            <= target@.y + target@.h,
{
    let g = initial_geometry(p);
    let flipped_x = initial_geometry(&flip_positioner_x(p));
    let flipped_y = initial_geometry(&flip_positioner_y(p));
    let (x, w) = solve_axis(
        p.flip_x,
        p.slide_x,
        p.resize_x,
        g.x,
        flipped_x.x,
        p.rect_w,
        target.x,
        target.w,
    );
    let (y, h) = solve_axis(
        p.flip_y,
        p.slide_y,
        p.resize_y,
        g.y,
        flipped_y.y,
        p.rect_h,
        target.y,
        target.h,
    );
    Rect { x, y, w, h }
}

/// The target shrunk by [`PADDING`] on each side, on each axis whose
/// extent is more than twice the inset (so a small target is never shrunk
/// to nothing).
pub open spec fn spec_pad(t: RectI) -> RectI {
    RectI {
        x: if 2 * PADDING < t.w { t.x + PADDING } else { t.x },
        y: if 2 * PADDING < t.h { t.y + PADDING } else { t.y },
        w: if 2 * PADDING < t.w { t.w - 2 * PADDING } else { t.w },
        h: if 2 * PADDING < t.h { t.h - 2 * PADDING } else { t.h },
    }
}

pub fn pad_rect(target: &Rect) -> (r: Rect)
    requires
        rect_bounded(target@),
    ensures
        r@ == spec_pad(target@),
{
    let mut r = *target;
    if 2 * PADDING < r.w {
        r.x = r.x + PADDING;
        r.w = r.w - 2 * PADDING;
    }
    if 2 * PADDING < r.h {
        r.y = r.y + PADDING;
        r.h = r.h - 2 * PADDING;
    }
    r
}

/// The padded-placement policy: solve against the padded target with
/// resize adjustments disabled, keep that geometry only if it fits
/// entirely within the padded target, and otherwise (or when padding had
/// no effect) solve against the original target with the caller's own
/// adjustments.
pub open spec fn spec_unconstrain_with_padding(p: PositionerI, t: RectI) -> RectI {
    let padded = spec_pad(t);
    if padded == t {
        solve_of(p, t)
    } else {
        let geo = solve_of(spec_no_resize(p), padded);
        if rect_contains(padded, geo) {
            geo
        } else {
            solve_of(p, t)
        }
    }
}

/// Fits a popup's anchored rectangle into `target`, preferring a placement
/// inset by [`PADDING`] that does not change the popup's size, and falling
/// back to the plain solve against `target`. When the positioner permits
/// both sliding and resizing on both axes and `target` has positive
/// extents, the result always lies within `target`.
pub fn unconstrain_with_padding(positioner: &Positioner, target: &Rect) -> (r: Rect)
    requires
        positioner_bounded(positioner@),
        rect_bounded(target@),
    ensures
        r@ == spec_unconstrain_with_padding(positioner@, target@),
        positioner@.slide_x && positioner@.resize_x && positioner@.slide_y && positioner@.resize_y
            && target@.w >= 1 && target@.h >= 1 ==> rect_contains(target@, r@),
{
    let padded = pad_rect(target);
    if padded == *target {
        return solve(positioner, target);
    }
    let relocate_only = positioner.without_resize();
    let geo = solve(&relocate_only, &padded);
    if padded.contains_rect(&geo) {
        return geo;
    }
    solve(positioner, target)
}

/// Padding law: the padded attempt is made exactly when a target axis is
/// wide enough to shrink, and a target too small to shrink on either axis
/// is solved directly, so the padded and the plain result coincide. Stated
/// for targets whose two axes agree on whether they can shrink.
pub proof fn lemma_padding_iff(p: PositionerI, t: RectI)
    requires
        rect_bounded(t),
        (2 * PADDING < t.w) == (2 * PADDING < t.h),
    ensures
        (2 * PADDING < t.w && 2 * PADDING < t.h) ==> spec_pad(t) != t,
        !(2 * PADDING < t.w && 2 * PADDING < t.h) ==> spec_pad(t) == t
            && spec_unconstrain_with_padding(p, t) == solve_of(p, t),
{
}

} // verus!
