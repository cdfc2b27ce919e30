//! The entity model: ball, paddles, gutters, the arena they live in, and the
//! score pair, together with the spawn-time layout rules that place them.

use vstd::prelude::*;

verus! {

use crate::COORD_LIMIT;
use crate::in_range;
use crate::geom::Vec2;
use crate::geom::vec_in_range;

/// Radius of the ball's bounding circle.
pub const BALL_RADIUS: i64 = 5;

/// Width of a paddle's bounding box.
pub const PADDLE_WIDTH: i64 = 10;

/// Height of a paddle's bounding box.
pub const PADDLE_HEIGHT: i64 = 50;

/// Height of each gutter's bounding box.
pub const GUTTER_HEIGHT: i64 = 20;

/// Vertical speed a pressed key gives a paddle.
pub const PADDLE_SPEED: i64 = 5;

/// Horizontal distance from the arena's edge to a paddle's center.
pub const PADDLE_PADDING: i64 = 50;

/// The ball: a moving circle.
#[derive(Clone, Copy, Debug, PartialEq, Eq, Structural)]
pub struct Ball {
    pub pos: Vec2,
    pub vel: Vec2,
    pub radius: i64,
}

pub open spec fn ball_wf(b: Ball) -> bool {
    &&& vec_in_range(b.pos)
    &&& vec_in_range(b.vel)
    &&& 0 <= b.radius <= COORD_LIMIT
}

/// A paddle: a moving box. Only the y component of its velocity is ever
/// driven; input never pushes a paddle sideways.
#[derive(Clone, Copy, Debug, PartialEq, Eq, Structural)]
pub struct Paddle {
    pub pos: Vec2,
    pub vel: Vec2,
    pub size: Vec2,
}

pub open spec fn paddle_wf(p: Paddle) -> bool {
    &&& vec_in_range(p.pos)
    &&& vec_in_range(p.vel)
    &&& 0 <= p.size.x <= COORD_LIMIT
    &&& 0 <= p.size.y <= COORD_LIMIT
}

/// A gutter: a static box confining vertical ball movement.
#[derive(Clone, Copy, Debug, PartialEq, Eq, Structural)]
pub struct Gutter {
    pub pos: Vec2,
    pub size: Vec2,
}

pub open spec fn gutter_wf(g: Gutter) -> bool {
    &&& vec_in_range(g.pos)
    &&& 0 <= g.size.x <= COORD_LIMIT
    &&& 0 <= g.size.y <= COORD_LIMIT
}

/// The rectangular play area, centered on the origin.
#[derive(Clone, Copy, Debug, PartialEq, Eq, Structural)]
pub struct Arena {
    pub width: i64,
    pub height: i64,
}

pub open spec fn arena_wf(a: Arena) -> bool {
    &&& 0 < a.width <= COORD_LIMIT
    &&& 0 < a.height <= COORD_LIMIT
}

/// Which side a point was scored for.
#[derive(Clone, Copy, Debug, PartialEq, Eq, Structural)]
pub enum Scorer {
    Player,
    Ai,
}

/// The running score pair. Counters only ever grow, and only through the
/// scoring pipeline.
#[derive(Clone, Copy, Debug, PartialEq, Eq, Structural)]
pub struct Score {
    pub player: u32,
    pub ai: u32,
}

impl Default for Score {
    fn default() -> (s: Score)
        ensures
            s.player == 0,
            s.ai == 0,
    {
        Score { player: 0, ai: 0 }
    }
}

impl Ball {
    /// A ball spawned at the arena's center with the given velocity.
    pub fn new(vx: i64, vy: i64) -> (b: Ball)
        ensures
            b.pos == (Vec2 { x: 0, y: 0 }),
            b.vel == (Vec2 { x: vx, y: vy }),
            b.radius == BALL_RADIUS,
    {
        Ball { pos: Vec2 { x: 0, y: 0 }, vel: Vec2 { x: vx, y: vy }, radius: BALL_RADIUS }
    }
}

impl Paddle {
    /// A stationary paddle of the standard size at the given position.
    pub fn new(x: i64, y: i64) -> (p: Paddle)
        ensures
            p.pos == (Vec2 { x: x, y: y }),
            p.vel == (Vec2 { x: 0, y: 0 }),
            p.size == (Vec2 { x: PADDLE_WIDTH, y: PADDLE_HEIGHT }),
    {
        Paddle {
            pos: Vec2 { x: x, y: y },
            vel: Vec2 { x: 0, y: 0 },
            size: Vec2 { x: PADDLE_WIDTH, y: PADDLE_HEIGHT },
        }
    }
}

impl Gutter {
    /// A gutter of the standard height spanning the given width.
    pub fn new(x: i64, y: i64, width: i64) -> (g: Gutter)
        ensures
            g.pos == (Vec2 { x: x, y: y }),
            g.size == (Vec2 { x: width, y: GUTTER_HEIGHT }),
    {
        Gutter { pos: Vec2 { x: x, y: y }, size: Vec2 { x: width, y: GUTTER_HEIGHT } }
    }
}

/// Where the top gutter's center sits: flush with the arena's upper edge.
pub open spec fn top_gutter_y(window_height: int) -> int {
    window_height / 2 - GUTTER_HEIGHT / 2
}

/// Where the bottom gutter's center sits: flush with the arena's lower edge.
pub open spec fn bottom_gutter_y(window_height: int) -> int {
    -(window_height / 2) + GUTTER_HEIGHT / 2
}

/// Where the player paddle's center sits: padded in from the left edge.
pub open spec fn player_paddle_x(window_width: int) -> int {
    -(window_width / 2) + PADDLE_PADDING
}

/// Where the second paddle's center sits: padded in from the right edge.
pub open spec fn ai_paddle_x(window_width: int) -> int {
    window_width / 2 - PADDLE_PADDING
}

/// The top gutter for an arena of the given size.
pub fn spawn_top_gutter(window_width: i64, window_height: i64) -> (g: Gutter)
    requires
        0 <= window_width <= COORD_LIMIT,
        0 <= window_height <= COORD_LIMIT,
    ensures
        g.pos.x == 0,
        g.pos.y as int == top_gutter_y(window_height as int),
        g.size == (Vec2 { x: window_width, y: GUTTER_HEIGHT }),
{
    Gutter::new(0, window_height / 2 - GUTTER_HEIGHT / 2, window_width)
}

/// The bottom gutter for an arena of the given size.
pub fn spawn_bottom_gutter(window_width: i64, window_height: i64) -> (g: Gutter)
    requires
        0 <= window_width <= COORD_LIMIT,
        0 <= window_height <= COORD_LIMIT,
    ensures
        g.pos.x == 0,
        g.pos.y as int == bottom_gutter_y(window_height as int),
        g.size == (Vec2 { x: window_width, y: GUTTER_HEIGHT }),
{
    Gutter::new(0, -(window_height / 2) + GUTTER_HEIGHT / 2, window_width)
}

/// The player's paddle for an arena of the given width.
pub fn spawn_player_paddle(window_width: i64) -> (p: Paddle)
    requires
        0 <= window_width <= COORD_LIMIT,
    ensures
        p.pos.x as int == player_paddle_x(window_width as int),
        p.pos.y == 0,
        p.vel == (Vec2 { x: 0, y: 0 }),
        p.size == (Vec2 { x: PADDLE_WIDTH, y: PADDLE_HEIGHT }),
{
    Paddle::new(-(window_width / 2) + PADDLE_PADDING, 0)
}

/// The second paddle for an arena of the given width.
pub fn spawn_ai_paddle(window_width: i64) -> (p: Paddle)
    requires
        0 <= window_width <= COORD_LIMIT,
    ensures
        p.pos.x as int == ai_paddle_x(window_width as int),
        p.pos.y == 0,
        p.vel == (Vec2 { x: 0, y: 0 }),
        p.size == (Vec2 { x: PADDLE_WIDTH, y: PADDLE_HEIGHT }),
{
    Paddle::new(window_width / 2 - PADDLE_PADDING, 0)
}

} // verus!
