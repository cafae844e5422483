//! Resolving the collision of a moving rectangle with a resting one.
//!
//! When the two overlap, the moving rectangle is pushed back along one axis
//! until it lies flush against the resting one, and the velocity component
//! along that axis is reversed. The axis is chosen by the shape of the shared
//! region: a region wider than it is tall means contact from above or below,
//! so the correction is vertical; otherwise it is horizontal. This is a
//! discrete test on the current positions, not a swept one: a fast rectangle
//! can pass through a thin obstacle between two steps, and near a corner the
//! axis follows whichever extent of the shared region happens to be larger.

use crate::geometry::{overlap_height, overlap_width, overlapping};
use crate::geometry::{Rect, RectModel, Velocity, VelocityModel};
use vstd::prelude::*;

verus! {

/// The axis along which a collision is corrected.
#[derive(Clone, Copy, Debug, PartialEq, Eq, Structural)]
pub enum Axis {
    Vertical,
    Horizontal,
}

/// The axis of correction for two overlapping rectangles: vertical when the
/// shared region is strictly wider than it is tall, horizontal otherwise.
pub open spec fn correction_axis(a: RectModel, b: RectModel) -> Axis {
    if overlap_width(a, b) > overlap_height(a, b) {
        Axis::Vertical
    } else {
        Axis::Horizontal
    }
}

/// Where the top edge of `a` goes in a vertical correction: moving down, its
/// bottom edge comes to rest on the top edge of `b`; otherwise its top edge
/// comes to rest on the bottom edge of `b`.
pub open spec fn snapped_y(a: RectModel, v: VelocityModel, b: RectModel) -> int {
    if v.y > 0 {
        b.y - a.h
    } else {
        b.y + b.h
    }
}

/// Where the left edge of `a` goes in a horizontal correction: moving right,
/// its right edge comes to rest on the left edge of `b`; otherwise its left
/// edge comes to rest on the right edge of `b`.
pub open spec fn snapped_x(a: RectModel, v: VelocityModel, b: RectModel) -> int {
    if v.x > 0 {
        b.x - a.w
    } else {
        b.x + b.w
    }
}

/// The moving rectangle after its collision with `b` has been resolved.
pub open spec fn resolved_rect(a: RectModel, v: VelocityModel, b: RectModel) -> RectModel {
    if !overlapping(a, b) {
        a
    } else {
        match correction_axis(a, b) {
            Axis::Vertical => RectModel { y: snapped_y(a, v, b), ..a },
            Axis::Horizontal => RectModel { x: snapped_x(a, v, b), ..a },
        }
    }
}

/// The velocity after the collision of `a` with `b` has been resolved.
pub open spec fn resolved_velocity(a: RectModel, v: VelocityModel, b: RectModel) -> VelocityModel {
    if !overlapping(a, b) {
        v
    } else {
        match correction_axis(a, b) {
            Axis::Vertical => VelocityModel { y: -v.y, ..v },
            Axis::Horizontal => VelocityModel { x: -v.x, ..v },
        }
    }
}

/// The outcome of resolving `a` against `b` can be stored: the corrected
/// coordinate and the reversed velocity component are within `i32`.
/// This always holds when the rectangles do not overlap.
pub open spec fn resolvable(a: RectModel, v: VelocityModel, b: RectModel) -> bool {
    resolved_rect(a, v, b).fits() && resolved_velocity(a, v, b).fits()
}

/// Whether the outcome of resolving `a` against `b` can be stored.
pub fn can_resolve(a: &Rect, vel: &Velocity, b: &Rect) -> (ok: bool)
    ensures
        ok == resolvable(a@, vel@, b@),
{
    match a.intersect(b) {
        None => true,
        Some(shared) => {
            if shared.w > shared.h {
                let target: i64 = if vel.y > 0 {
                    b.y as i64 - a.h as i64
                } else {
                    b.y as i64 + b.h as i64
                };
                vel.y > i32::MIN && i32::MIN as i64 <= target && target <= i32::MAX as i64
            } else {
                let target: i64 = if vel.x > 0 {
                    b.x as i64 - a.w as i64
                } else {
                    b.x as i64 + b.w as i64
                };
                vel.x > i32::MIN && i32::MIN as i64 <= target && target <= i32::MAX as i64
            }
        },
    }
}

/// Detects whether `a`, moving with velocity `vel`, overlaps the resting
/// rectangle `b`, and resolves the collision if so.
///
/// Returns `false` and changes nothing when the two do not overlap; sharing
/// only an edge is no overlap. Otherwise returns `true`, having moved `a`
/// along the axis of correction until it lies flush against `b` and reversed
/// the velocity component along that axis. The size of `a` and the other
/// coordinate and velocity component are untouched.
pub fn resolve_collision(a: &mut Rect, vel: &mut Velocity, b: &Rect) -> (hit: bool)
    requires
        resolvable(old(a)@, old(vel)@, b@),
    ensures
        hit == overlapping(old(a)@, b@),
        final(a)@ == resolved_rect(old(a)@, old(vel)@, b@),
        final(vel)@ == resolved_velocity(old(a)@, old(vel)@, b@),
        !hit ==> *final(a) == *old(a) && *final(vel) == *old(vel),
        hit ==> !overlapping(final(a)@, b@),
        final(a).w == old(a).w && final(a).h == old(a).h,
{
    match a.intersect(b) {
        None => false,
        Some(shared) => {
            if shared.w > shared.h {
                a.y = if vel.y > 0 {
                    b.y - a.h
                } else {
                    b.y + b.h
                };
                vel.y = -vel.y;
            } else {
                a.x = if vel.x > 0 {
                    b.x - a.w
                } else {
                    b.x + b.w
                };
                vel.x = -vel.x;
            }
            true
        },
    }
}

/// Resolves the collision where its outcome can be stored. Returns `None`,
/// with `a` and `vel` unchanged, where it cannot.
pub fn try_resolve_collision(a: &mut Rect, vel: &mut Velocity, b: &Rect) -> (r: Option<bool>)
    ensures
        r is Some <==> resolvable(old(a)@, old(vel)@, b@),
        r is None ==> *final(a) == *old(a) && *final(vel) == *old(vel),
        r matches Some(hit) ==> {
            &&& hit == overlapping(old(a)@, b@)
            &&& final(a)@ == resolved_rect(old(a)@, old(vel)@, b@)
            &&& final(vel)@ == resolved_velocity(old(a)@, old(vel)@, b@)
        },
{
    if can_resolve(a, vel, b) {
        Some(resolve_collision(a, vel, b))
    } else {
        None
    }
}

/// Rectangles that do not overlap are left as they are.
pub proof fn lemma_no_overlap_no_change(a: RectModel, v: VelocityModel, b: RectModel)
    requires
        !overlapping(a, b),
    ensures
        resolved_rect(a, v, b) == a,
        resolved_velocity(a, v, b) == v,
{
}

/// Resolution never changes the size of the moving rectangle, and changes
/// at most one coordinate and the velocity component along the same axis.
pub proof fn lemma_resolution_is_along_one_axis(a: RectModel, v: VelocityModel, b: RectModel)
    ensures
        resolved_rect(a, v, b).w == a.w,
        resolved_rect(a, v, b).h == a.h,
        resolved_rect(a, v, b).x == a.x || resolved_rect(a, v, b).y == a.y,
        resolved_rect(a, v, b).x != a.x ==> resolved_velocity(a, v, b).y == v.y,
        resolved_rect(a, v, b).y != a.y ==> resolved_velocity(a, v, b).x == v.x,
        resolved_velocity(a, v, b).x == v.x || resolved_velocity(a, v, b).y == v.y,
{
}

/// A rectangle moving down that is corrected vertically comes to rest with
/// its bottom edge on the top edge of `b`, and then moves up.
pub proof fn lemma_lands_on_top(a: RectModel, v: VelocityModel, b: RectModel)
    requires
        overlapping(a, b),
        correction_axis(a, b) == Axis::Vertical,
        v.y > 0,
    ensures
        resolved_rect(a, v, b).bottom() == b.top(),
        resolved_rect(a, v, b).x == a.x,
        resolved_velocity(a, v, b).y == -v.y,
        resolved_velocity(a, v, b).y < 0,
        resolved_velocity(a, v, b).x == v.x,
{
}

/// A rectangle that comes down onto `b` lands on it: when it lies between
/// the sides of `b`, reaches into `b` from above, and by less than its own
/// width, a downward velocity brings its bottom edge to rest on the top
/// edge of `b` and is reversed.
pub proof fn lemma_landing_from_above(a: RectModel, v: VelocityModel, b: RectModel)
    requires
        a.wf(),
        b.wf(),
        b.left() <= a.left(),
        a.right() <= b.right(),
        a.top() < b.top() < a.bottom() <= b.bottom(),
        a.bottom() - b.top() < a.w,
        v.y > 0,
    ensures
        overlapping(a, b),
        correction_axis(a, b) == Axis::Vertical,
        resolved_rect(a, v, b).bottom() == b.top(),
        resolved_rect(a, v, b).x == a.x,
        resolved_velocity(a, v, b) == (VelocityModel { x: v.x, y: -v.y }),
        resolved_velocity(a, v, b).y < 0,
{
}

/// A rectangle not moving down that is corrected vertically comes to rest
/// with its top edge on the bottom edge of `b`, its vertical velocity reversed.
pub proof fn lemma_stops_below(a: RectModel, v: VelocityModel, b: RectModel)
    requires
        overlapping(a, b),
        correction_axis(a, b) == Axis::Vertical,
        v.y <= 0,
    ensures
        resolved_rect(a, v, b).top() == b.bottom(),
        resolved_rect(a, v, b).x == a.x,
        resolved_velocity(a, v, b).y == -v.y,
        resolved_velocity(a, v, b).y >= 0,
        resolved_velocity(a, v, b).x == v.x,
{
}

/// A rectangle moving right that is corrected horizontally comes to rest
/// with its right edge on the left edge of `b`, and then moves left.
pub proof fn lemma_stops_at_left_side(a: RectModel, v: VelocityModel, b: RectModel)
    requires
        overlapping(a, b),
        correction_axis(a, b) == Axis::Horizontal,
        v.x > 0,
    ensures
        resolved_rect(a, v, b).right() == b.left(),
        resolved_rect(a, v, b).y == a.y,
        resolved_velocity(a, v, b).x == -v.x,
        resolved_velocity(a, v, b).x < 0,
        resolved_velocity(a, v, b).y == v.y,
{
}

/// A rectangle not moving right that is corrected horizontally comes to rest
/// with its left edge on the right edge of `b`, its horizontal velocity reversed.
pub proof fn lemma_stops_at_right_side(a: RectModel, v: VelocityModel, b: RectModel)
    requires
        overlapping(a, b),
        correction_axis(a, b) == Axis::Horizontal,
        v.x <= 0,
    ensures
        resolved_rect(a, v, b).left() == b.right(),
        resolved_rect(a, v, b).y == a.y,
        resolved_velocity(a, v, b).x == -v.x,
        resolved_velocity(a, v, b).x >= 0,
        resolved_velocity(a, v, b).y == v.y,
{
}

/// After a correction nothing is left to correct: the corrected rectangle
/// does not overlap `b`, whatever velocity it is resolved with next, so
/// resolving it again against `b` changes nothing.
pub proof fn lemma_resolved_is_clear(
    a: RectModel,
    v: VelocityModel,
    b: RectModel,
    next: VelocityModel,
)
    ensures
        !overlapping(resolved_rect(a, v, b), b),
        overlapping(a, b) ==> match correction_axis(a, b) {
            Axis::Vertical => overlap_height(resolved_rect(a, v, b), b) == 0,
            Axis::Horizontal => overlap_width(resolved_rect(a, v, b), b) == 0,
        },
        resolved_rect(resolved_rect(a, v, b), next, b) == resolved_rect(a, v, b),
        resolved_velocity(resolved_rect(a, v, b), next, b) == next,
        resolvable(a, v, b) ==> resolvable(
            resolved_rect(a, v, b),
            resolved_velocity(a, v, b),
            b,
        ),
{
}

} // verus!
