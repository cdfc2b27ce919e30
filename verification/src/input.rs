//! The input system: current key-down state maps directly to paddle
//! velocity, with no acceleration or momentum.

use vstd::prelude::*;

verus! {

use crate::entities::PADDLE_SPEED;
use crate::entities::Paddle;

/// The pressed/not-pressed state of the four keys the game reads, one
/// up/down pair per paddle.
#[derive(Clone, Copy, Debug, PartialEq, Eq, Structural)]
pub struct KeyState {
    pub player_up: bool,
    pub player_down: bool,
    pub ai_up: bool,
    pub ai_down: bool,
}

/// The vertical velocity one up/down key pair dictates: up wins over down,
/// and no key pressed means standing still.
pub open spec fn input_vel_y(up: bool, down: bool) -> int {
    if up {
        PADDLE_SPEED as int
    } else if down {
        -PADDLE_SPEED as int
    } else {
        0
    }
}

/// Map one key pair to a paddle velocity.
pub fn paddle_vel_from_keys(up: bool, down: bool) -> (v: i64)
    ensures
        v as int == input_vel_y(up, down),
{
    if up {
        PADDLE_SPEED
    } else if down {
        -PADDLE_SPEED
    } else {
        0
    }
}

/// Set each paddle's vertical velocity from its own key pair. Horizontal
/// velocity, position and shape are untouched.
pub fn handle_player_input(player: &mut Paddle, ai: &mut Paddle, keys: KeyState)
    ensures
        final(player).vel.y as int == input_vel_y(keys.player_up, keys.player_down),
        final(player).vel.x == old(player).vel.x,
        final(player).pos == old(player).pos,
        final(player).size == old(player).size,
        final(ai).vel.y as int == input_vel_y(keys.ai_up, keys.ai_down),
        final(ai).vel.x == old(ai).vel.x,
        final(ai).pos == old(ai).pos,
        final(ai).size == old(ai).size,
{
    player.vel.y = paddle_vel_from_keys(keys.player_up, keys.player_down);
    ai.vel.y = paddle_vel_from_keys(keys.ai_up, keys.ai_down);
}

} // verus!
