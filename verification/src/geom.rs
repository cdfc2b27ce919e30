//! Geometric primitives: 2D integer vectors, axis-aligned boxes, bounding
//! circles, and the closest-point / squared-distance machinery behind the
//! collision test.

use vstd::prelude::*;

verus! {

use crate::COORD_LIMIT;
use crate::in_range;

/// A 2D vector with exact integer components.
#[derive(Clone, Copy, Debug, PartialEq, Eq, Structural)]
pub struct Vec2 {
    pub x: i64,
    pub y: i64,
}

/// Both components small enough for the simulation's arithmetic.
pub open spec fn vec_in_range(v: Vec2) -> bool {
    in_range(v.x as int) && in_range(v.y as int)
}

/// An axis-aligned box given by its center and half-extents.
#[derive(Clone, Copy, Debug, PartialEq, Eq, Structural)]
pub struct Aabb {
    pub center: Vec2,
    pub half: Vec2,
}

pub open spec fn aabb_wf(b: Aabb) -> bool {
    &&& vec_in_range(b.center)
    &&& 0 <= b.half.x <= COORD_LIMIT
    &&& 0 <= b.half.y <= COORD_LIMIT
}

/// A bounding circle given by its center and radius.
#[derive(Clone, Copy, Debug, PartialEq, Eq, Structural)]
pub struct Circle {
    pub center: Vec2,
    pub radius: i64,
}

pub open spec fn circle_wf(c: Circle) -> bool {
    &&& vec_in_range(c.center)
    &&& 0 <= c.radius <= COORD_LIMIT
}

pub open spec fn min_i(a: int, b: int) -> int {
    if a < b {
        a
    } else {
        b
    }
}

pub open spec fn max_i(a: int, b: int) -> int {
    if a > b {
        a
    } else {
        b
    }
}

pub open spec fn abs_i(a: int) -> int {
    if a < 0 {
        -a
    } else {
        a
    }
}

/// `v` pulled into `[lo, hi]`: first raised to `lo`, then lowered to `hi`
/// (so `hi` wins if the interval is empty).
pub open spec fn clamp_i(v: int, lo: int, hi: int) -> int {
    min_i(max_i(v, lo), hi)
}

pub fn clamp_i64(v: i64, lo: i64, hi: i64) -> (r: i64)
    ensures
        r as int == clamp_i(v as int, lo as int, hi as int),
{
    let m: i64 = if v > lo {
        v
    } else {
        lo
    };
    if m < hi {
        m
    } else {
        hi
    }
}

/// The x coordinate of the point of `wall` closest to `p`.
pub open spec fn closest_x(wall: Aabb, p: Vec2) -> int {
    clamp_i(p.x as int, wall.center.x - wall.half.x, wall.center.x + wall.half.x)
}

/// The y coordinate of the point of `wall` closest to `p`.
pub open spec fn closest_y(wall: Aabb, p: Vec2) -> int {
    clamp_i(p.y as int, wall.center.y - wall.half.y, wall.center.y + wall.half.y)
}

/// Offset from the box's closest point back to the circle's center.
pub open spec fn offset_x(ball: Circle, wall: Aabb) -> int {
    ball.center.x - closest_x(wall, ball.center)
}

pub open spec fn offset_y(ball: Circle, wall: Aabb) -> int {
    ball.center.y - closest_y(wall, ball.center)
}

/// Squared distance from the circle's center to the box.
pub open spec fn dist_sq(ball: Circle, wall: Aabb) -> int {
    offset_x(ball, wall) * offset_x(ball, wall) + offset_y(ball, wall) * offset_y(ball, wall)
}

/// The circle overlaps the box: its center lies strictly closer to the box
/// than one radius. A circle that merely touches (distance equal to the
/// radius) does not count as intersecting.
pub open spec fn circle_box_intersect(ball: Circle, wall: Aabb) -> bool {
    dist_sq(ball, wall) < ball.radius * ball.radius
}

} // verus!
