//! Axis-aligned rectangles and the shared bounce/collision resolution rule.
//!
//! Coordinates are integers: whole pixels for positions and sizes, while
//! velocity components are scaled direction values interpreted by each
//! entity's own update rule.  The y axis grows downward, as on screen.

use vstd::prelude::*;
use crate::COORD_LIMIT;

verus! {

/// A two-dimensional integer vector, used for velocities.
#[derive(Clone, Copy, PartialEq, Eq, Structural, Debug)]
pub struct Vec2i {
    pub x: i64,
    pub y: i64,
}

/// An axis-aligned rectangle: top-left corner, width and height.
#[derive(Clone, Copy, PartialEq, Eq, Structural, Debug)]
pub struct Rect {
    pub x: i64,
    pub y: i64,
    pub w: i64,
    pub h: i64,
}

/// Absolute value of an integer.
pub open spec fn abs(v: int) -> int {
    if v >= 0 {
        v
    } else {
        -v
    }
}

/// Length of the overlap of the spans `[lo1, lo1+len1]` and `[lo2, lo2+len2]`;
/// negative when they are apart, zero when they merely touch.
pub open spec fn span_overlap(lo1: int, len1: int, lo2: int, len2: int) -> int {
    (if lo1 + len1 <= lo2 + len2 {
        lo1 + len1
    } else {
        lo2 + len2
    }) - (if lo1 >= lo2 {
        lo1
    } else {
        lo2
    })
}

/// Whether the span `[lo1, lo1+len1]` contains the span `[lo2, lo2+len2]`.
pub open spec fn span_contains(lo1: int, len1: int, lo2: int, len2: int) -> bool {
    lo1 <= lo2 && lo2 + len2 <= lo1 + len1
}

impl Rect {
    /// Coordinates and sizes the geometry routines accept: sizes are
    /// non-negative and everything is far from the `i64` range ends.
    pub open spec fn in_bounds(self) -> bool {
        &&& -COORD_LIMIT <= self.x <= COORD_LIMIT
        &&& -COORD_LIMIT <= self.y <= COORD_LIMIT
        &&& 0 <= self.w <= COORD_LIMIT
        &&& 0 <= self.h <= COORD_LIMIT
    }
}

impl Vec2i {
    /// Velocity components the geometry routines accept.
    pub open spec fn in_bounds(self) -> bool {
        &&& -COORD_LIMIT <= self.x <= COORD_LIMIT
        &&& -COORD_LIMIT <= self.y <= COORD_LIMIT
    }
}

/// Width of the overlap region of two rectangles.
pub open spec fn overlap_w(a: Rect, b: Rect) -> int {
    span_overlap(a.x as int, a.w as int, b.x as int, b.w as int)
}

/// Height of the overlap region of two rectangles.
pub open spec fn overlap_h(a: Rect, b: Rect) -> int {
    span_overlap(a.y as int, a.h as int, b.y as int, b.h as int)
}

/// Whether two rectangles intersect; edges that merely touch still count,
/// yielding a zero-area overlap.
pub open spec fn rects_intersect(a: Rect, b: Rect) -> bool {
    overlap_w(a, b) >= 0 && overlap_h(a, b) >= 0
}

/// Twice the x coordinate of a rectangle's center (doubled to stay integral).
pub open spec fn center2_x(r: Rect) -> int {
    2 * r.x + r.w
}

/// Twice the y coordinate of a rectangle's center (doubled to stay integral).
pub open spec fn center2_y(r: Rect) -> int {
    2 * r.y + r.h
}

/// When resolving a collision of `a` against `b`, the bounce happens on the
/// y axis exactly when the overlap is wider than tall; ties go to the x axis.
pub open spec fn bounce_on_y(a: Rect, b: Rect) -> bool {
    overlap_w(a, b) > overlap_h(a, b)
}

/// The moving rectangle's x position after resolution: pulled away from the
/// target's center by the overlap width when the bounce is on the x axis and
/// the centers do not coincide on it.
pub open spec fn resolved_x(a: Rect, b: Rect) -> int {
    if rects_intersect(a, b) && !bounce_on_y(a, b) {
        if center2_x(b) > center2_x(a) {
            a.x - overlap_w(a, b)
        } else if center2_x(b) < center2_x(a) {
            a.x + overlap_w(a, b)
        } else {
            a.x as int
        }
    } else {
        a.x as int
    }
}

/// The moving rectangle's y position after resolution.
pub open spec fn resolved_y(a: Rect, b: Rect) -> int {
    if rects_intersect(a, b) && bounce_on_y(a, b) {
        if center2_y(b) > center2_y(a) {
            a.y - overlap_h(a, b)
        } else if center2_y(b) < center2_y(a) {
            a.y + overlap_h(a, b)
        } else {
            a.y as int
        }
    } else {
        a.y as int
    }
}

/// The moving rectangle's x velocity after resolution: on an x-axis bounce it
/// is forced to point away from the target's center, keeping its magnitude;
/// when the centers coincide on that axis it is zeroed.
pub open spec fn resolved_vx(a: Rect, v: Vec2i, b: Rect) -> int {
    if rects_intersect(a, b) && !bounce_on_y(a, b) {
        if center2_x(b) > center2_x(a) {
            -abs(v.x as int)
        } else if center2_x(b) < center2_x(a) {
            abs(v.x as int)
        } else {
            0
        }
    } else {
        v.x as int
    }
}

/// The moving rectangle's y velocity after resolution.
pub open spec fn resolved_vy(a: Rect, v: Vec2i, b: Rect) -> int {
    if rects_intersect(a, b) && bounce_on_y(a, b) {
        if center2_y(b) > center2_y(a) {
            -abs(v.y as int)
        } else if center2_y(b) < center2_y(a) {
            abs(v.y as int)
        } else {
            0
        }
    } else {
        v.y as int
    }
}

/// The moving rectangle after resolution, as a rectangle value.
pub open spec fn resolved_rect(a: Rect, b: Rect) -> Rect {
    Rect { x: resolved_x(a, b) as i64, y: resolved_y(a, b) as i64, w: a.w, h: a.h }
}

/// The moving rectangle's velocity after resolution, as a vector value.
pub open spec fn resolved_vel(a: Rect, v: Vec2i, b: Rect) -> Vec2i {
    Vec2i { x: resolved_vx(a, v, b) as i64, y: resolved_vy(a, v, b) as i64 }
}

/// Resolve a collision between the moving rectangle `a` (with velocity `vel`)
/// and the static target `b`.  When they overlap, the overlap is resolved
/// along the axis of least penetration: `a` is pulled away from `b`'s center
/// by the overlap extent on that axis, and the matching velocity component is
/// forced to point away from `b`'s center, keeping its magnitude.  When the
/// centers coincide on the bounce axis, position is left alone and the
/// velocity component is zeroed.  Returns whether a collision occurred.
pub fn resolve_collision(a: &mut Rect, vel: &mut Vec2i, b: &Rect) -> (hit: bool)
    requires
        old(a).in_bounds(),
        old(vel).in_bounds(),
        b.in_bounds(),
    ensures
        hit == rects_intersect(*old(a), *b),
        final(a).x == resolved_x(*old(a), *b),
        final(a).y == resolved_y(*old(a), *b),
        final(a).w == old(a).w,
        final(a).h == old(a).h,
        final(vel).x == resolved_vx(*old(a), *old(vel), *b),
        final(vel).y == resolved_vy(*old(a), *old(vel), *b),
        *final(a) == resolved_rect(*old(a), *b),
        *final(vel) == resolved_vel(*old(a), *old(vel), *b),
        old(a).x - b.w <= final(a).x <= old(a).x + b.w,
        old(a).y - b.h <= final(a).y <= old(a).y + b.h,
        abs(final(vel).x as int) <= abs(old(vel).x as int),
        abs(final(vel).y as int) <= abs(old(vel).y as int),
{
    let a_right: i64 = a.x + a.w;
    let b_right: i64 = b.x + b.w;
    let a_bottom: i64 = a.y + a.h;
    let b_bottom: i64 = b.y + b.h;
    let left: i64 = if a.x >= b.x { a.x } else { b.x };
    let right: i64 = if a_right <= b_right { a_right } else { b_right };
    let top: i64 = if a.y >= b.y { a.y } else { b.y };
    let bottom: i64 = if a_bottom <= b_bottom { a_bottom } else { b_bottom };
    if right < left || bottom < top {
        return false;
    }
    let iw: i64 = right - left;
    let ih: i64 = bottom - top;
    let dx: i64 = (2 * b.x + b.w) - (2 * a.x + a.w);
    let dy: i64 = (2 * b.y + b.h) - (2 * a.y + a.h);
    if iw > ih {
        // bounce on y
        if dy > 0 {
            a.y = a.y - ih;
            vel.y = if vel.y >= 0 { -vel.y } else { vel.y };
        } else if dy < 0 {
            a.y = a.y + ih;
            vel.y = if vel.y >= 0 { vel.y } else { -vel.y };
        } else {
            vel.y = 0;
        }
    } else {
        // bounce on x
        if dx > 0 {
            a.x = a.x - iw;
            vel.x = if vel.x >= 0 { -vel.x } else { vel.x };
        } else if dx < 0 {
            a.x = a.x + iw;
            vel.x = if vel.x >= 0 { vel.x } else { -vel.x };
        } else {
            vel.x = 0;
        }
    }
    true
}

/// Law: for two overlapping rectangles, resolving the collision eliminates
/// the overlap along the corrected axis — afterwards the rectangles at most
/// touch on it — and the position on the other axis is left unchanged.
/// This needs the two rectangles' spans on the corrected axis not to contain
/// one another (a pull by the overlap extent cannot separate a rectangle from
/// one it is nested in) and their centers not to coincide on that axis (a
/// zero center delta suppresses the positional correction).
pub proof fn lemma_resolution_eliminates_overlap(a: Rect, b: Rect)
    requires
        a.in_bounds(),
        b.in_bounds(),
        rects_intersect(a, b),
        bounce_on_y(a, b) ==> {
            &&& center2_y(a) != center2_y(b)
            &&& !span_contains(a.y as int, a.h as int, b.y as int, b.h as int)
            &&& !span_contains(b.y as int, b.h as int, a.y as int, a.h as int)
        },
        !bounce_on_y(a, b) ==> {
            &&& center2_x(a) != center2_x(b)
            &&& !span_contains(a.x as int, a.w as int, b.x as int, b.w as int)
            &&& !span_contains(b.x as int, b.w as int, a.x as int, a.w as int)
        },
    ensures
        bounce_on_y(a, b) ==> span_overlap(resolved_y(a, b), a.h as int, b.y as int, b.h as int)
            == 0,
        bounce_on_y(a, b) ==> resolved_x(a, b) == a.x,
        !bounce_on_y(a, b) ==> span_overlap(resolved_x(a, b), a.w as int, b.x as int, b.w as int)
            == 0,
        !bounce_on_y(a, b) ==> resolved_y(a, b) == a.y,
{
}

/// Law: after resolving a collision, the moving rectangle's velocity
/// component on the bounce axis points away from the target's center: toward
/// smaller coordinates when the target's center lies at larger coordinates,
/// and the other way round — strictly so when the incoming component was not
/// zero.
pub proof fn lemma_resolved_velocity_points_away(a: Rect, v: Vec2i, b: Rect)
    requires
        a.in_bounds(),
        v.in_bounds(),
        b.in_bounds(),
        rects_intersect(a, b),
    ensures
        bounce_on_y(a, b) && center2_y(b) > center2_y(a) ==> resolved_vy(a, v, b) <= 0,
        bounce_on_y(a, b) && center2_y(b) < center2_y(a) ==> resolved_vy(a, v, b) >= 0,
        bounce_on_y(a, b) && center2_y(b) > center2_y(a) && v.y != 0 ==> resolved_vy(a, v, b)
            < 0,
        bounce_on_y(a, b) && center2_y(b) < center2_y(a) && v.y != 0 ==> resolved_vy(a, v, b)
            > 0,
        !bounce_on_y(a, b) && center2_x(b) > center2_x(a) ==> resolved_vx(a, v, b) <= 0,
        !bounce_on_y(a, b) && center2_x(b) < center2_x(a) ==> resolved_vx(a, v, b) >= 0,
        !bounce_on_y(a, b) && center2_x(b) > center2_x(a) && v.x != 0 ==> resolved_vx(a, v, b)
            < 0,
        !bounce_on_y(a, b) && center2_x(b) < center2_x(a) && v.x != 0 ==> resolved_vx(a, v, b)
            > 0,
{
}

} // verus!
