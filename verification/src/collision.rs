//! The collision system: circle-versus-box detection, side-of-impact
//! classification, and the reflection response on the ball's velocity.

use vstd::prelude::*;

verus! {

use crate::geom::Aabb;
use crate::geom::Circle;
use crate::geom::Vec2;
use crate::geom::abs_i;
use crate::geom::aabb_wf;
use crate::geom::circle_wf;
use crate::geom::circle_box_intersect;
use crate::geom::clamp_i64;
use crate::geom::dist_sq;
use crate::geom::offset_x;
use crate::geom::offset_y;
use crate::entities::Ball;
use crate::entities::ball_wf;

/// Which side of an obstacle the ball struck, seen from the obstacle.
#[derive(Clone, Copy, Debug, PartialEq, Eq, Structural)]
pub enum Collision {
    Top,
    Bottom,
    Left,
    Right,
}

/// How an overlap of `ball` and `wall` is classified, or `None` when they do
/// not intersect. The offset from the box's closest point to the circle's
/// center picks the axis: a strictly larger |x| component means a Left/Right
/// hit, anything else — ties included — falls into the Top/Bottom family.
pub open spec fn collision_side(ball: Circle, wall: Aabb) -> Option<Collision> {
    if !circle_box_intersect(ball, wall) {
        None
    } else {
        let ox = offset_x(ball, wall);
        let oy = offset_y(ball, wall);
        if abs_i(ox) > abs_i(oy) {
            if ox > 0 {
                Some(Collision::Left)
            } else {
                Some(Collision::Right)
            }
        } else {
            if oy > 0 {
                Some(Collision::Bottom)
            } else {
                Some(Collision::Top)
            }
        }
    }
}

/// The ball's horizontal velocity after one classified hit: a Left or Right
/// impact reflects it, anything else leaves it alone.
pub open spec fn vel_after_hit_x(vx: int, side: Option<Collision>) -> int {
    if side == Some(Collision::Left) || side == Some(Collision::Right) {
        -vx
    } else {
        vx
    }
}

/// The ball's vertical velocity after one classified hit: a Top or Bottom
/// impact reflects it, anything else leaves it alone.
pub open spec fn vel_after_hit_y(vy: int, side: Option<Collision>) -> int {
    if side == Some(Collision::Top) || side == Some(Collision::Bottom) {
        -vy
    } else {
        vy
    }
}

/// Horizontal velocity after evaluating every obstacle in order, each against
/// the same ball circle; simultaneous overlaps each flip independently.
pub open spec fn vx_after_obstacles(ball: Circle, vx: int, obstacles: Seq<Aabb>) -> int
    decreases obstacles.len(),
{
    if obstacles.len() == 0 {
        vx
    } else {
        vel_after_hit_x(
            vx_after_obstacles(ball, vx, obstacles.drop_last()),
            collision_side(ball, obstacles.last()),
        )
    }
}

/// Vertical velocity after evaluating every obstacle in order.
pub open spec fn vy_after_obstacles(ball: Circle, vy: int, obstacles: Seq<Aabb>) -> int
    decreases obstacles.len(),
{
    if obstacles.len() == 0 {
        vy
    } else {
        vel_after_hit_y(
            vy_after_obstacles(ball, vy, obstacles.drop_last()),
            collision_side(ball, obstacles.last()),
        )
    }
}

/// The ball's bounding circle: centered on its position, with its radius.
pub open spec fn circle_of(b: Ball) -> Circle {
    Circle { center: b.pos, radius: b.radius }
}

/// Classify the overlap of `ball` and `wall`, if any.
pub fn collide_with_side(ball: Circle, wall: Aabb) -> (r: Option<Collision>)
    requires
        circle_wf(ball),
        aabb_wf(wall),
    ensures
        r == collision_side(ball, wall),
{
    let cx: i64 = clamp_i64(ball.center.x, wall.center.x - wall.half.x, wall.center.x + wall.half.x);
    let cy: i64 = clamp_i64(ball.center.y, wall.center.y - wall.half.y, wall.center.y + wall.half.y);
    let ox: i64 = ball.center.x - cx;
    let oy: i64 = ball.center.y - cy;
    proof {
        assert(wall.center.x - wall.half.x >= -200_000_000);
        assert(wall.center.x + wall.half.x <= 200_000_000);
        assert(-200_000_000 <= cx <= 200_000_000);
        assert(-200_000_000 <= cy <= 200_000_000);
        assert(-300_000_000 <= ox <= 300_000_000);
        assert(-300_000_000 <= oy <= 300_000_000);
        assert(ox * ox <= 90_000_000_000_000_000 && ox * ox >= 0) by (nonlinear_arith)
            requires
                -300_000_000 <= ox <= 300_000_000,
        ;
        assert(oy * oy <= 90_000_000_000_000_000 && oy * oy >= 0) by (nonlinear_arith)
            requires
                -300_000_000 <= oy <= 300_000_000,
        ;
        assert(ball.radius * ball.radius <= 10_000_000_000_000_000 && ball.radius * ball.radius
            >= 0) by (nonlinear_arith)
            requires
                0 <= ball.radius <= 100_000_000,
        ;
    }
    let d2: i64 = ox * ox + oy * oy;
    let r2: i64 = ball.radius * ball.radius;
    if d2 >= r2 {
        return None;
    }
    let ax: i64 = if ox < 0 {
        -ox
    } else {
        ox
    };
    let ay: i64 = if oy < 0 {
        -oy
    } else {
        oy
    };
    if ax > ay {
        if ox > 0 {
            Some(Collision::Left)
        } else {
            Some(Collision::Right)
        }
    } else {
        if oy > 0 {
            Some(Collision::Bottom)
        } else {
            Some(Collision::Top)
        }
    }
}

/// Evaluate the ball against every obstacle in order and reflect its
/// velocity once per hit: Top/Bottom hits invert the y component, Left/Right
/// hits the x component. The ball's position and shape are untouched, and a
/// corner frame overlapping several obstacles may flip both axes.
pub fn handle_collisions(ball: &mut Ball, obstacles: &Vec<Aabb>)
    requires
        ball_wf(*old(ball)),
        forall|i: int| 0 <= i < obstacles@.len() ==> aabb_wf(obstacles@[i]),
    ensures
        final(ball).pos == old(ball).pos,
        final(ball).radius == old(ball).radius,
        final(ball).vel.x as int == vx_after_obstacles(
            circle_of(*old(ball)),
            old(ball).vel.x as int,
            obstacles@,
        ),
        final(ball).vel.y as int == vy_after_obstacles(
            circle_of(*old(ball)),
            old(ball).vel.y as int,
            obstacles@,
        ),
{
    let ghost orig: Ball = *ball;
    let circle = Circle { center: ball.pos, radius: ball.radius };
    let mut i: usize = 0;
    while i < obstacles.len()
        invariant
            0 <= i <= obstacles@.len(),
            ball_wf(orig),
            forall|j: int| 0 <= j < obstacles@.len() ==> aabb_wf(obstacles@[j]),
            circle == circle_of(orig),
            ball.pos == orig.pos,
            ball.radius == orig.radius,
            ball.vel.x as int == vx_after_obstacles(circle, orig.vel.x as int, obstacles@.take(i as int)),
            ball.vel.y as int == vy_after_obstacles(circle, orig.vel.y as int, obstacles@.take(i as int)),
            abs_i(ball.vel.x as int) == abs_i(orig.vel.x as int),
            abs_i(ball.vel.y as int) == abs_i(orig.vel.y as int),
        decreases obstacles@.len() - i,
    {
        let side = collide_with_side(circle, obstacles[i]);
        match side {
            Some(Collision::Top) | Some(Collision::Bottom) => {
                ball.vel.y = -ball.vel.y;
            },
            Some(Collision::Left) | Some(Collision::Right) => {
                ball.vel.x = -ball.vel.x;
            },
            None => {},
        }
        proof {
            assert(obstacles@.take(i + 1).drop_last() =~= obstacles@.take(i as int));
            assert(obstacles@.take(i + 1).last() == obstacles@[i as int]);
        }
        i = i + 1;
    }
    proof {
        assert(obstacles@.take(obstacles@.len() as int) =~= obstacles@);
    }
}

/// Reflection never changes speed along an axis: however many obstacles are
/// evaluated, each velocity component keeps its magnitude.
pub proof fn lemma_vx_after_obstacles_abs(ball: Circle, vx: int, obstacles: Seq<Aabb>)
    ensures
        abs_i(vx_after_obstacles(ball, vx, obstacles)) == abs_i(vx),
    decreases obstacles.len(),
{
    if obstacles.len() > 0 {
        lemma_vx_after_obstacles_abs(ball, vx, obstacles.drop_last());
    }
}

pub proof fn lemma_vy_after_obstacles_abs(ball: Circle, vy: int, obstacles: Seq<Aabb>)
    ensures
        abs_i(vy_after_obstacles(ball, vy, obstacles)) == abs_i(vy),
    decreases obstacles.len(),
{
    if obstacles.len() > 0 {
        lemma_vy_after_obstacles_abs(ball, vy, obstacles.drop_last());
    }
}

/// A miss changes nothing: when the circle does not intersect the box — its
/// center lies at least one radius away from the box's closest point — the
/// hit is classified as no hit, and the response leaves both velocity
/// components exactly as they were.
pub proof fn lemma_no_overlap_no_bounce(ball: Circle, wall: Aabb, vx: int, vy: int)
    requires
        dist_sq(ball, wall) >= ball.radius * ball.radius,
    ensures
        collision_side(ball, wall) is None,
        vel_after_hit_x(vx, collision_side(ball, wall)) == vx,
        vel_after_hit_y(vy, collision_side(ball, wall)) == vy,
{
}

/// A whole frame of misses changes nothing either: when the ball's circle
/// intersects none of the obstacles, the response leaves both velocity
/// components exactly as they were.
pub proof fn lemma_all_misses_leave_velocity(ball: Circle, vx: int, vy: int, obstacles: Seq<Aabb>)
    requires
        forall|i: int| 0 <= i < obstacles.len() ==> !circle_box_intersect(ball, obstacles[i]),
    ensures
        vx_after_obstacles(ball, vx, obstacles) == vx,
        vy_after_obstacles(ball, vy, obstacles) == vy,
    decreases obstacles.len(),
{
    if obstacles.len() > 0 {
        lemma_all_misses_leave_velocity(ball, vx, vy, obstacles.drop_last());
        assert(!circle_box_intersect(ball, obstacles.last()));
    }
}

/// The tie-break is deterministic: when the offset's components match in
/// magnitude exactly, an intersecting hit always falls into the Top/Bottom
/// family, never Left/Right.
pub proof fn lemma_tie_break_top_bottom(ball: Circle, wall: Aabb)
    requires
        circle_box_intersect(ball, wall),
        abs_i(offset_x(ball, wall)) == abs_i(offset_y(ball, wall)),
    ensures
        collision_side(ball, wall) == Some(Collision::Top) || collision_side(ball, wall)
            == Some(Collision::Bottom),
{
}

} // verus!
