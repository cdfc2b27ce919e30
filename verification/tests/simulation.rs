use pong::collision::collide_with_side;
use pong::collision::handle_collisions;
use pong::collision::Collision;
use pong::entities::Ball;
use pong::entities::Paddle;
use pong::geom::Aabb;
use pong::geom::Circle;
use pong::geom::Vec2;
use pong::motion::move_ball;
use pong::motion::move_paddle;

fn ball_at(px: i64, py: i64, vx: i64, vy: i64) -> Ball {
    Ball { pos: Vec2 { x: px, y: py }, vel: Vec2 { x: vx, y: vy }, radius: 5 }
}

fn box_at(cx: i64, cy: i64, hx: i64, hy: i64) -> Aabb {
    Aabb { center: Vec2 { x: cx, y: cy }, half: Vec2 { x: hx, y: hy } }
}

fn circle_at(cx: i64, cy: i64, r: i64) -> Circle {
    Circle { center: Vec2 { x: cx, y: cy }, radius: r }
}

#[test]
fn motion_adds_velocity_componentwise() {
    let mut ball = ball_at(3, -7, 5, 11);
    move_ball(&mut ball);
    assert_eq!(ball.pos, Vec2 { x: 8, y: 4 });
    assert_eq!(ball.vel, Vec2 { x: 5, y: 11 });
}

#[test]
fn motion_zero_velocity_stays_put() {
    let mut ball = ball_at(42, -9, 0, 0);
    move_ball(&mut ball);
    assert_eq!(ball.pos, Vec2 { x: 42, y: -9 });
}

#[test]
fn paddle_clamps_at_upper_bound() {
    // Window height 600, paddle height 50: centers stay within [-275, 275].
    let mut paddle = Paddle {
        pos: Vec2 { x: -350, y: 270 },
        vel: Vec2 { x: 0, y: 50 },
        size: Vec2 { x: 10, y: 50 },
    };
    move_paddle(&mut paddle, 600);
    assert_eq!(paddle.pos.y, 275);
}

#[test]
fn paddle_clamps_at_lower_bound() {
    let mut paddle = Paddle {
        pos: Vec2 { x: -350, y: -270 },
        vel: Vec2 { x: 0, y: -50 },
        size: Vec2 { x: 10, y: 50 },
    };
    move_paddle(&mut paddle, 600);
    assert_eq!(paddle.pos.y, -275);
}

#[test]
fn paddle_moves_freely_inside_bounds() {
    let mut paddle = Paddle {
        pos: Vec2 { x: -350, y: 10 },
        vel: Vec2 { x: 0, y: -5 },
        size: Vec2 { x: 10, y: 50 },
    };
    move_paddle(&mut paddle, 600);
    assert_eq!(paddle.pos.y, 5);
}

#[test]
fn no_intersection_is_classified_as_no_hit() {
    // Center (30, 0), closest box point (10, 0): distance 20 >= radius 5.
    let side = collide_with_side(circle_at(30, 0, 5), box_at(0, 0, 10, 10));
    assert_eq!(side, None);
}

#[test]
fn touching_at_exactly_one_radius_is_no_hit() {
    // Closest point (10, 0) lies exactly 5 from the center: not intersecting.
    let side = collide_with_side(circle_at(15, 0, 5), box_at(0, 0, 10, 10));
    assert_eq!(side, None);
}

#[test]
fn equal_offsets_fall_into_top_bottom_family() {
    // Closest point (10, 10), offset (3, 3): |x| == |y| exactly, and the
    // positive y offset classifies as Bottom, never Left or Right.
    let side = collide_with_side(circle_at(13, 13, 5), box_at(0, 0, 10, 10));
    assert_eq!(side, Some(Collision::Bottom));
    let side_neg = collide_with_side(circle_at(13, -13, 5), box_at(0, 0, 10, 10));
    assert_eq!(side_neg, Some(Collision::Top));
}

#[test]
fn sides_are_classified_by_dominant_offset() {
    let wall = box_at(0, 0, 10, 10);
    assert_eq!(collide_with_side(circle_at(14, 2, 5), wall), Some(Collision::Left));
    assert_eq!(collide_with_side(circle_at(-14, 2, 5), wall), Some(Collision::Right));
    assert_eq!(collide_with_side(circle_at(2, 14, 5), wall), Some(Collision::Bottom));
    assert_eq!(collide_with_side(circle_at(2, -14, 5), wall), Some(Collision::Top));
}

#[test]
fn center_inside_box_counts_as_top() {
    let side = collide_with_side(circle_at(0, 0, 5), box_at(0, 0, 10, 10));
    assert_eq!(side, Some(Collision::Top));
}

#[test]
fn top_hit_inverts_vertical_velocity() {
    let mut ball = ball_at(2, -14, 3, 4);
    let obstacles = vec![box_at(0, 0, 10, 10)];
    handle_collisions(&mut ball, &obstacles);
    assert_eq!(ball.vel, Vec2 { x: 3, y: -4 });
    assert_eq!(ball.pos, Vec2 { x: 2, y: -14 });
}

#[test]
fn side_hit_inverts_horizontal_velocity() {
    let mut ball = ball_at(14, 2, -3, 4);
    let obstacles = vec![box_at(0, 0, 10, 10)];
    handle_collisions(&mut ball, &obstacles);
    assert_eq!(ball.vel, Vec2 { x: 3, y: 4 });
}

#[test]
fn miss_leaves_velocity_unchanged() {
    let mut ball = ball_at(50, 50, -3, 4);
    let obstacles = vec![box_at(0, 0, 10, 10)];
    handle_collisions(&mut ball, &obstacles);
    assert_eq!(ball.vel, Vec2 { x: -3, y: 4 });
}

#[test]
fn two_obstacles_can_flip_both_axes() {
    // One box is struck on its left face, the other on its top face.
    let mut ball = ball_at(14, 2, -3, -4);
    let obstacles = vec![box_at(0, 0, 10, 10), box_at(14, 16, 10, 10)];
    handle_collisions(&mut ball, &obstacles);
    assert_eq!(ball.vel, Vec2 { x: 3, y: 4 });
}
