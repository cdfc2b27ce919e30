//! The motion system: one simulation tick moves each entity by its velocity,
//! then pulls paddles back inside the arena's vertical bounds.

use vstd::prelude::*;

verus! {

use crate::geom::clamp_i;
use crate::geom::clamp_i64;
use crate::entities::Ball;
use crate::entities::Paddle;

/// Lowest y a paddle's center may take in an arena of the given height.
pub open spec fn paddle_min_y(window_height: int, paddle_height: int) -> int {
    -(window_height / 2) + paddle_height / 2
}

/// Highest y a paddle's center may take in an arena of the given height.
pub open spec fn paddle_max_y(window_height: int, paddle_height: int) -> int {
    window_height / 2 - paddle_height / 2
}

/// One motion tick for the ball: each position component gains exactly the
/// matching velocity component; velocity and shape are untouched.
pub fn move_ball(ball: &mut Ball)
    requires
        i64::MIN <= old(ball).pos.x + old(ball).vel.x <= i64::MAX,
        i64::MIN <= old(ball).pos.y + old(ball).vel.y <= i64::MAX,
    ensures
        final(ball).pos.x as int == old(ball).pos.x + old(ball).vel.x,
        final(ball).pos.y as int == old(ball).pos.y + old(ball).vel.y,
        final(ball).vel == old(ball).vel,
        final(ball).radius == old(ball).radius,
{
    ball.pos.x = ball.pos.x + ball.vel.x;
    ball.pos.y = ball.pos.y + ball.vel.y;
}

/// One motion tick for a paddle: its center gains its vertical velocity and
/// is then clamped into the arena's vertical bounds. Nothing else moves.
pub fn move_paddle(paddle: &mut Paddle, window_height: i64)
    requires
        0 <= window_height,
        0 <= old(paddle).size.y,
        i64::MIN <= old(paddle).pos.y + old(paddle).vel.y <= i64::MAX,
    ensures
        final(paddle).pos.y as int == clamp_i(
            old(paddle).pos.y + old(paddle).vel.y,
            paddle_min_y(window_height as int, old(paddle).size.y as int),
            paddle_max_y(window_height as int, old(paddle).size.y as int),
        ),
        final(paddle).pos.x == old(paddle).pos.x,
        final(paddle).vel == old(paddle).vel,
        final(paddle).size == old(paddle).size,
{
    let lo: i64 = -(window_height / 2) + paddle.size.y / 2;
    let hi: i64 = window_height / 2 - paddle.size.y / 2;
    let moved: i64 = paddle.pos.y + paddle.vel.y;
    paddle.pos.y = clamp_i64(moved, lo, hi);
}

/// One motion tick for both paddles.
pub fn move_paddles(player: &mut Paddle, ai: &mut Paddle, window_height: i64)
    requires
        0 <= window_height,
        0 <= old(player).size.y,
        0 <= old(ai).size.y,
        i64::MIN <= old(player).pos.y + old(player).vel.y <= i64::MAX,
        i64::MIN <= old(ai).pos.y + old(ai).vel.y <= i64::MAX,
    ensures
        final(player).pos.y as int == clamp_i(
            old(player).pos.y + old(player).vel.y,
            paddle_min_y(window_height as int, old(player).size.y as int),
            paddle_max_y(window_height as int, old(player).size.y as int),
        ),
        final(player).pos.x == old(player).pos.x,
        final(player).vel == old(player).vel,
        final(player).size == old(player).size,
        final(ai).pos.y as int == clamp_i(
            old(ai).pos.y + old(ai).vel.y,
            paddle_min_y(window_height as int, old(ai).size.y as int),
            paddle_max_y(window_height as int, old(ai).size.y as int),
        ),
        final(ai).pos.x == old(ai).pos.x,
        final(ai).vel == old(ai).vel,
        final(ai).size == old(ai).size,
{
    move_paddle(player, window_height);
    move_paddle(ai, window_height);
}

/// However a paddle moves, a motion-plus-clamp tick leaves its center inside
/// the arena's vertical bounds: for any velocity and any prior position, the
/// clamped result lies in `[paddle_min_y, paddle_max_y]` whenever a paddle of
/// that height fits in the arena at all.
pub proof fn lemma_paddle_clamp_in_bounds(y: int, vy: int, window_height: int, paddle_height: int)
    requires
        0 <= paddle_height <= window_height,
    ensures
        paddle_min_y(window_height, paddle_height) <= clamp_i(
            y + vy,
            paddle_min_y(window_height, paddle_height),
            paddle_max_y(window_height, paddle_height),
        ) <= paddle_max_y(window_height, paddle_height),
{
    assert(paddle_height / 2 <= window_height / 2);
}

} // verus!
