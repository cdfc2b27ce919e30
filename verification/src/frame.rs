//! One whole simulation frame: the world record and the fixed-order pipeline
//! — input, motion, collision, scoring, reset, score update, scoreboard
//! refresh — run once per rendered frame.

use vstd::prelude::*;

verus! {

use crate::COORD_LIMIT;
use crate::in_range;
use crate::geom::Aabb;
use crate::geom::Vec2;
use crate::geom::clamp_i;
use crate::entities::Arena;
use crate::entities::Ball;
use crate::entities::Gutter;
use crate::entities::Paddle;
use crate::entities::Score;
use crate::entities::Scorer;
use crate::entities::arena_wf;
use crate::entities::ball_wf;
use crate::entities::gutter_wf;
use crate::entities::paddle_wf;
use crate::entities::spawn_ai_paddle;
use crate::entities::spawn_bottom_gutter;
use crate::entities::spawn_player_paddle;
use crate::entities::spawn_top_gutter;
use crate::collision::circle_of;
use crate::collision::handle_collisions;
use crate::collision::lemma_vx_after_obstacles_abs;
use crate::collision::lemma_vy_after_obstacles_abs;
use crate::collision::vx_after_obstacles;
use crate::collision::vy_after_obstacles;
use crate::input::KeyState;
use crate::input::handle_player_input;
use crate::input::input_vel_y;
use crate::motion::move_ball;
use crate::motion::move_paddles;
use crate::motion::paddle_max_y;
use crate::motion::paddle_min_y;
use crate::scoreboard::Scoreboard;
use crate::scoreboard::decimal_digits;
use crate::scoreboard::scoreboard_wf;
use crate::scoreboard::update_scoreboard;
use crate::scoring::SERVE_X_MAX;
use crate::scoring::SERVE_X_MIN;
use crate::scoring::SERVE_Y_SPREAD;
use crate::scoring::count_scorer;
use crate::scoring::detect_scoring;
use crate::scoring::reset_ball_with;
use crate::scoring::scoring_outcome;
use crate::scoring::serve_vx;
use crate::scoring::serve_vy;
use crate::scoring::update_score;

/// The ball's horizontal speed at the first spawn.
pub const INITIAL_BALL_VX: i64 = 5;

/// The bounding box of an entity at `pos` whose shape is `size`: half the
/// extents on each side of the center.
pub open spec fn box_of(pos: Vec2, size: Vec2) -> Aabb {
    Aabb {
        center: pos,
        half: Vec2 { x: (size.x as int / 2) as i64, y: (size.y as int / 2) as i64 },
    }
}

/// Build an entity's bounding box.
pub fn make_box(pos: Vec2, size: Vec2) -> (b: Aabb)
    requires
        0 <= size.x,
        0 <= size.y,
    ensures
        b == box_of(pos, size),
{
    Aabb { center: pos, half: Vec2 { x: size.x / 2, y: size.y / 2 } }
}

/// The obstacles the ball is tested against, in evaluation order: both
/// paddles, then both gutters.
pub open spec fn step_obstacles(player: Paddle, ai: Paddle, top: Gutter, bottom: Gutter) -> Seq<
    Aabb,
> {
    seq![
        box_of(player.pos, player.size),
        box_of(ai.pos, ai.size),
        box_of(top.pos, top.size),
        box_of(bottom.pos, bottom.size),
    ]
}

/// The draws a serve is allowed to come from.
pub open spec fn serve_draw_ok(y_base: int, x_mag: int) -> bool {
    &&& -SERVE_Y_SPREAD <= y_base <= SERVE_Y_SPREAD
    &&& SERVE_X_MIN <= x_mag < SERVE_X_MAX
}

/// Everything of one frame: ball, paddles, gutters, score and scoreboard
/// inside one arena.
pub struct World {
    pub arena: Arena,
    pub ball: Ball,
    pub player: Paddle,
    pub ai: Paddle,
    pub gutter_top: Gutter,
    pub gutter_bottom: Gutter,
    pub score: Score,
    pub scoreboard: Scoreboard,
}

pub open spec fn world_wf(w: World) -> bool {
    &&& arena_wf(w.arena)
    &&& ball_wf(w.ball)
    &&& paddle_wf(w.player)
    &&& paddle_wf(w.ai)
    &&& gutter_wf(w.gutter_top)
    &&& gutter_wf(w.gutter_bottom)
    &&& scoreboard_wf(w.scoreboard)
}

/// How one frame relates the world before to the world after, given the key
/// state and the serve draws (which matter only on a scoring frame):
/// paddles take their velocity from the keys and move clamped; the ball
/// gains its velocity, is reflected by whatever it overlaps, and — if it
/// crossed a scoring boundary — is recentered with the serve the draws
/// dictate while the crossing's one event feeds the score and, through the
/// change gate, the scoreboard.
pub open spec fn step_post(pre: World, post: World, keys: KeyState, y_base: int, x_mag: int) -> bool {
    let half_width = pre.arena.width as int / 2;
    let moved_x = pre.ball.pos.x + pre.ball.vel.x;
    let moved_y = pre.ball.pos.y + pre.ball.vel.y;
    let player_vy = input_vel_y(keys.player_up, keys.player_down);
    let ai_vy = input_vel_y(keys.ai_up, keys.ai_down);
    let outcome = scoring_outcome(moved_x, half_width);
    let moved_ball = Ball {
        pos: Vec2 { x: moved_x as i64, y: moved_y as i64 },
        vel: pre.ball.vel,
        radius: pre.ball.radius,
    };
    let obstacles = step_obstacles(post.player, post.ai, pre.gutter_top, pre.gutter_bottom);
    &&& post.arena == pre.arena
    &&& post.gutter_top == pre.gutter_top
    &&& post.gutter_bottom == pre.gutter_bottom
    &&& post.player.pos.x == pre.player.pos.x
    &&& post.player.pos.y as int == clamp_i(
        pre.player.pos.y + player_vy,
        paddle_min_y(pre.arena.height as int, pre.player.size.y as int),
        paddle_max_y(pre.arena.height as int, pre.player.size.y as int),
    )
    &&& post.player.vel.x == pre.player.vel.x
    &&& post.player.vel.y as int == player_vy
    &&& post.player.size == pre.player.size
    &&& post.ai.pos.x == pre.ai.pos.x
    &&& post.ai.pos.y as int == clamp_i(
        pre.ai.pos.y + ai_vy,
        paddle_min_y(pre.arena.height as int, pre.ai.size.y as int),
        paddle_max_y(pre.arena.height as int, pre.ai.size.y as int),
    )
    &&& post.ai.vel.x == pre.ai.vel.x
    &&& post.ai.vel.y as int == ai_vy
    &&& post.ai.size == pre.ai.size
    &&& post.ball.radius == pre.ball.radius
    &&& match outcome {
        Some(s) => {
            &&& post.ball.pos == (Vec2 { x: 0, y: 0 })
            &&& post.ball.vel.x as int == serve_vx(s, x_mag)
            &&& post.ball.vel.y as int == serve_vy(y_base)
            &&& post.score.player as int == pre.score.player + (if s == Scorer::Player {
                1int
            } else {
                0int
            })
            &&& post.score.ai as int == pre.score.ai + (if s == Scorer::Ai {
                1int
            } else {
                0int
            })
        },
        None => {
            &&& post.ball.pos.x as int == moved_x
            &&& post.ball.pos.y as int == moved_y
            &&& post.ball.vel.x as int == vx_after_obstacles(
                circle_of(moved_ball),
                pre.ball.vel.x as int,
                obstacles,
            )
            &&& post.ball.vel.y as int == vy_after_obstacles(
                circle_of(moved_ball),
                pre.ball.vel.y as int,
                obstacles,
            )
            &&& post.score == pre.score
        },
    }
    &&& post.scoreboard.shown == post.score
    &&& (post.score == pre.scoreboard.shown ==> post.scoreboard == pre.scoreboard)
    &&& (post.score != pre.scoreboard.shown ==> {
        &&& post.scoreboard.refreshes as int == pre.scoreboard.refreshes + 1
        &&& post.scoreboard.player_text@ == decimal_digits(post.score.player as nat)
        &&& post.scoreboard.ai_text@ == decimal_digits(post.score.ai as nat)
    })
}

impl World {
    /// The world at startup for a display surface of the given size: the
    /// ball at the center already moving toward the second paddle's side,
    /// both paddles centered and padded in from their edges, the gutters
    /// flush with the top and bottom, and a zero score shown as such.
    pub fn new(window_width: i64, window_height: i64) -> (w: World)
        requires
            0 < window_width <= COORD_LIMIT,
            0 < window_height <= COORD_LIMIT,
        ensures
            world_wf(w),
            w.arena == (Arena { width: window_width, height: window_height }),
            w.ball.pos == (Vec2 { x: 0, y: 0 }),
            w.ball.vel == (Vec2 { x: INITIAL_BALL_VX, y: 0 }),
            w.ball.radius == crate::entities::BALL_RADIUS,
            w.player == spawn_player_paddle_spec(window_width as int),
            w.ai == spawn_ai_paddle_spec(window_width as int),
            w.gutter_top.pos.y as int == crate::entities::top_gutter_y(window_height as int),
            w.gutter_bottom.pos.y as int == crate::entities::bottom_gutter_y(window_height as int),
            w.score == (Score { player: 0, ai: 0 }),
            w.scoreboard.shown == (Score { player: 0, ai: 0 }),
            w.scoreboard.refreshes == 0,
    {
        World {
            arena: Arena { width: window_width, height: window_height },
            ball: Ball::new(INITIAL_BALL_VX, 0),
            player: spawn_player_paddle(window_width),
            ai: spawn_ai_paddle(window_width),
            gutter_top: spawn_top_gutter(window_width, window_height),
            gutter_bottom: spawn_bottom_gutter(window_width, window_height),
            score: Score::default(),
            scoreboard: Scoreboard::new(),
        }
    }

    /// One frame with the serve draws handed in, so the whole step is a
    /// function of its arguments and its outcome is pinned exactly.
    pub fn step_with_serve(&mut self, keys: KeyState, y_base: i64, x_mag: i64)
        requires
            world_wf(*old(self)),
            in_range(old(self).ball.pos.x + old(self).ball.vel.x),
            in_range(old(self).ball.pos.y + old(self).ball.vel.y),
            serve_draw_ok(y_base as int, x_mag as int),
            old(self).score.player < u32::MAX,
            old(self).score.ai < u32::MAX,
            old(self).scoreboard.refreshes < u64::MAX,
        ensures
            world_wf(*final(self)),
            step_post(*old(self), *final(self), keys, y_base as int, x_mag as int),
    {
        handle_player_input(&mut self.player, &mut self.ai, keys);
        move_ball(&mut self.ball);
        move_paddles(&mut self.player, &mut self.ai, self.arena.height);
        let mut obstacles: Vec<Aabb> = Vec::new();
        obstacles.push(make_box(self.player.pos, self.player.size));
        obstacles.push(make_box(self.ai.pos, self.ai.size));
        obstacles.push(make_box(self.gutter_top.pos, self.gutter_top.size));
        obstacles.push(make_box(self.gutter_bottom.pos, self.gutter_bottom.size));
        proof {
            assert(obstacles@ =~= step_obstacles(
                self.player,
                self.ai,
                self.gutter_top,
                self.gutter_bottom,
            ));
            lemma_vx_after_obstacles_abs(
                circle_of(self.ball),
                self.ball.vel.x as int,
                obstacles@,
            );
            lemma_vy_after_obstacles_abs(
                circle_of(self.ball),
                self.ball.vel.y as int,
                obstacles@,
            );
        }
        handle_collisions(&mut self.ball, &obstacles);
        let outcome = detect_scoring(&self.ball, self.arena.width);
        let mut events: Vec<Scorer> = Vec::new();
        match outcome {
            Some(s) => {
                events.push(s);
                reset_ball_with(&mut self.ball, s, y_base, x_mag);
            },
            None => {},
        }
        proof {
            if events@.len() > 0 {
                assert(events@.drop_last() =~= Seq::<Scorer>::empty());
                assert(count_scorer(Seq::<Scorer>::empty(), Scorer::Player) == 0);
                assert(count_scorer(Seq::<Scorer>::empty(), Scorer::Ai) == 0);
                assert(count_scorer(events@, Scorer::Player) == (if events@.last()
                    == Scorer::Player {
                    1int
                } else {
                    0int
                }));
                assert(count_scorer(events@, Scorer::Ai) == (if events@.last() == Scorer::Ai {
                    1int
                } else {
                    0int
                }));
            } else {
                assert(count_scorer(events@, Scorer::Player) == 0);
                assert(count_scorer(events@, Scorer::Ai) == 0);
            }
        }
        update_score(&mut self.score, &events);
        update_scoreboard(&mut self.scoreboard, &self.score);
    }

    /// One frame as the game plays it: the serve, should this frame score,
    /// is drawn fresh from the random generator. Everything else of the
    /// frame is pinned; of the serve, every outcome satisfies the draw
    /// bounds.
    pub fn step(&mut self, keys: KeyState)
        requires
            world_wf(*old(self)),
            in_range(old(self).ball.pos.x + old(self).ball.vel.x),
            in_range(old(self).ball.pos.y + old(self).ball.vel.y),
            old(self).score.player < u32::MAX,
            old(self).score.ai < u32::MAX,
            old(self).scoreboard.refreshes < u64::MAX,
        ensures
            world_wf(*final(self)),
            exists|y_base: int, x_mag: int|
                serve_draw_ok(y_base, x_mag) && #[trigger] step_post(
                    *old(self),
                    *final(self),
                    keys,
                    y_base,
                    x_mag,
                ),
    {
        let y_base: i64 = crate::scoring::random_serve_y_base();
        let x_mag: i64 = crate::scoring::random_serve_x_mag();
        self.step_with_serve(keys, y_base, x_mag);
        proof {
            assert(serve_draw_ok(y_base as int, x_mag as int) && step_post(
                *old(self),
                *final(self),
                keys,
                y_base as int,
                x_mag as int,
            ));
        }
    }
}

/// The player paddle as spawned.
pub open spec fn spawn_player_paddle_spec(window_width: int) -> Paddle {
    Paddle {
        pos: Vec2 { x: crate::entities::player_paddle_x(window_width) as i64, y: 0 },
        vel: Vec2 { x: 0, y: 0 },
        size: Vec2 { x: crate::entities::PADDLE_WIDTH, y: crate::entities::PADDLE_HEIGHT },
    }
}

/// The second paddle as spawned.
pub open spec fn spawn_ai_paddle_spec(window_width: int) -> Paddle {
    Paddle {
        pos: Vec2 { x: crate::entities::ai_paddle_x(window_width) as i64, y: 0 },
        vel: Vec2 { x: 0, y: 0 },
        size: Vec2 { x: crate::entities::PADDLE_WIDTH, y: crate::entities::PADDLE_HEIGHT },
    }
}

/// Whatever the keys and however the frame went, a paddle that fits the
/// arena ends the frame with its center inside the arena's vertical bounds.
pub proof fn lemma_paddles_stay_in_bounds(
    pre: World,
    post: World,
    keys: KeyState,
    y_base: int,
    x_mag: int,
)
    requires
        step_post(pre, post, keys, y_base, x_mag),
        0 <= pre.player.size.y <= pre.arena.height,
        0 <= pre.ai.size.y <= pre.arena.height,
    ensures
        paddle_min_y(pre.arena.height as int, pre.player.size.y as int) <= post.player.pos.y
            <= paddle_max_y(pre.arena.height as int, pre.player.size.y as int),
        paddle_min_y(pre.arena.height as int, pre.ai.size.y as int) <= post.ai.pos.y
            <= paddle_max_y(pre.arena.height as int, pre.ai.size.y as int),
{
    crate::motion::lemma_paddle_clamp_in_bounds(
        pre.player.pos.y as int,
        input_vel_y(keys.player_up, keys.player_down),
        pre.arena.height as int,
        pre.player.size.y as int,
    );
    crate::motion::lemma_paddle_clamp_in_bounds(
        pre.ai.pos.y as int,
        input_vel_y(keys.ai_up, keys.ai_down),
        pre.arena.height as int,
        pre.ai.size.y as int,
    );
}

/// A frame never takes a point away, and awards at most one.
pub proof fn lemma_score_monotone(pre: World, post: World, keys: KeyState, y_base: int, x_mag: int)
    requires
        step_post(pre, post, keys, y_base, x_mag),
    ensures
        post.score.player >= pre.score.player,
        post.score.ai >= pre.score.ai,
        post.score.player + post.score.ai <= pre.score.player + pre.score.ai + 1,
{
}

/// After a scoring frame the ball sits exactly at the origin and serves
/// toward the side that conceded: a player point sends it left, a second
/// paddle point sends it right.
pub proof fn lemma_serve_direction(pre: World, post: World, keys: KeyState, y_base: int, x_mag: int)
    requires
        step_post(pre, post, keys, y_base, x_mag),
        serve_draw_ok(y_base, x_mag),
    ensures
        scoring_outcome(pre.ball.pos.x + pre.ball.vel.x, pre.arena.width as int / 2) == Some(
            Scorer::Player,
        ) ==> post.ball.pos == (Vec2 { x: 0, y: 0 }) && post.ball.vel.x < 0,
        scoring_outcome(pre.ball.pos.x + pre.ball.vel.x, pre.arena.width as int / 2) == Some(
            Scorer::Ai,
        ) ==> post.ball.pos == (Vec2 { x: 0, y: 0 }) && post.ball.vel.x > 0,
{
}

/// The same serve-direction law for a frame whose draws were random: only
/// their bounds are known, and they already decide the sign.
pub proof fn lemma_step_serve_direction(pre: World, post: World, keys: KeyState)
    requires
        exists|y_base: int, x_mag: int|
            serve_draw_ok(y_base, x_mag) && #[trigger] step_post(pre, post, keys, y_base, x_mag),
    ensures
        scoring_outcome(pre.ball.pos.x + pre.ball.vel.x, pre.arena.width as int / 2) == Some(
            Scorer::Player,
        ) ==> post.ball.pos == (Vec2 { x: 0, y: 0 }) && post.ball.vel.x < 0,
        scoring_outcome(pre.ball.pos.x + pre.ball.vel.x, pre.arena.width as int / 2) == Some(
            Scorer::Ai,
        ) ==> post.ball.pos == (Vec2 { x: 0, y: 0 }) && post.ball.vel.x > 0,
{
    let (y_base, x_mag) = choose|y_base: int, x_mag: int|
        serve_draw_ok(y_base, x_mag) && #[trigger] step_post(pre, post, keys, y_base, x_mag);
    lemma_serve_direction(pre, post, keys, y_base, x_mag);
}

} // verus!
