//! The scoring pipeline: boundary-crossing detection, the per-frame event
//! mailbox's consumers — score update and ball reset — and the randomized
//! serve that follows a point.

use vstd::prelude::*;

verus! {

use crate::geom::Vec2;
use crate::geom::abs_i;
use crate::entities::Ball;
use crate::entities::Score;
use crate::entities::Scorer;

/// Half-open upper bound is excluded: the serve's horizontal magnitude is
/// drawn from `SERVE_X_MIN..SERVE_X_MAX`.
pub const SERVE_X_MIN: i64 = 4;

pub const SERVE_X_MAX: i64 = 7;

/// The serve's vertical base value is drawn from
/// `-SERVE_Y_SPREAD..=SERVE_Y_SPREAD` ...
pub const SERVE_Y_SPREAD: i64 = 1;

/// ... and then pushed outward by this fixed offset in the direction of its
/// own sign, so a serve is never near-flat.
pub const SERVE_Y_PUSH: i64 = 4;

/// The scoring decision for a ball at `ball_x` in an arena reaching from
/// `-half_width` to `half_width`: strictly beyond the right edge the player
/// scores, strictly beyond the left edge the second paddle scores, anywhere
/// within bounds nobody does.
pub open spec fn scoring_outcome(ball_x: int, half_width: int) -> Option<Scorer> {
    if ball_x > half_width {
        Some(Scorer::Player)
    } else if ball_x < -half_width {
        Some(Scorer::Ai)
    } else {
        None
    }
}

/// Detect a boundary crossing: at most one scoring event per frame, and one
/// if and only if the ball's center lies strictly outside the vertical
/// scoring boundaries.
pub fn detect_scoring(ball: &Ball, window_width: i64) -> (r: Option<Scorer>)
    requires
        0 <= window_width,
    ensures
        r == scoring_outcome(ball.pos.x as int, window_width as int / 2),
{
    let half_width: i64 = window_width / 2;
    if ball.pos.x > half_width {
        Some(Scorer::Player)
    } else if ball.pos.x < -half_width {
        Some(Scorer::Ai)
    } else {
        None
    }
}

/// How many events of the mailbox credit `who`.
pub open spec fn count_scorer(events: Seq<Scorer>, who: Scorer) -> nat
    decreases events.len(),
{
    if events.len() == 0 {
        0
    } else {
        count_scorer(events.drop_last(), who) + if events.last() == who {
            1nat
        } else {
            0nat
        }
    }
}

/// Counting events is additive over concatenation: however player-side and
/// second-paddle-side events are interleaved, across any split into batches,
/// each side's total is exactly its number of events.
pub proof fn lemma_count_scorer_concat(a: Seq<Scorer>, b: Seq<Scorer>, who: Scorer)
    ensures
        count_scorer(a + b, who) == count_scorer(a, who) + count_scorer(b, who),
    decreases b.len(),
{
    if b.len() == 0 {
        assert(a + b =~= a);
    } else {
        lemma_count_scorer_concat(a, b.drop_last(), who);
        assert((a + b).drop_last() =~= a + b.drop_last());
    }
}

/// Every event credits exactly one side, so the two counts exhaust the
/// mailbox.
pub proof fn lemma_count_scorer_total(events: Seq<Scorer>)
    ensures
        count_scorer(events, Scorer::Player) + count_scorer(events, Scorer::Ai) == events.len(),
    decreases events.len(),
{
    if events.len() > 0 {
        lemma_count_scorer_total(events.drop_last());
    }
}

/// Drain the mailbox into the score: each side's counter grows by exactly
/// its number of events this frame, and never shrinks.
pub fn update_score(score: &mut Score, events: &Vec<Scorer>)
    requires
        old(score).player + count_scorer(events@, Scorer::Player) <= u32::MAX,
        old(score).ai + count_scorer(events@, Scorer::Ai) <= u32::MAX,
    ensures
        final(score).player as int == old(score).player + count_scorer(events@, Scorer::Player),
        final(score).ai as int == old(score).ai + count_scorer(events@, Scorer::Ai),
        final(score).player >= old(score).player,
        final(score).ai >= old(score).ai,
{
    let ghost orig: Score = *score;
    let mut i: usize = 0;
    while i < events.len()
        invariant
            0 <= i <= events@.len(),
            orig.player + count_scorer(events@, Scorer::Player) <= u32::MAX,
            orig.ai + count_scorer(events@, Scorer::Ai) <= u32::MAX,
            score.player as int == orig.player + count_scorer(events@.take(i as int), Scorer::Player),
            score.ai as int == orig.ai + count_scorer(events@.take(i as int), Scorer::Ai),
        decreases events@.len() - i,
    {
        proof {
            assert(events@.take(i + 1).drop_last() =~= events@.take(i as int));
            assert(events@.take(i + 1) + events@.skip(i + 1) =~= events@);
            lemma_count_scorer_concat(events@.take(i + 1), events@.skip(i + 1), Scorer::Player);
            lemma_count_scorer_concat(events@.take(i + 1), events@.skip(i + 1), Scorer::Ai);
        }
        match events[i] {
            Scorer::Player => {
                score.player = score.player + 1;
            },
            Scorer::Ai => {
                score.ai = score.ai + 1;
            },
        }
        i = i + 1;
    }
    proof {
        assert(events@.take(events@.len() as int) =~= events@);
    }
}

/// The serve's horizontal velocity: magnitude as drawn, sent toward the side
/// that just conceded — negative when the player scored, positive when the
/// second paddle did.
pub open spec fn serve_vx(scorer: Scorer, x_mag: int) -> int {
    if scorer == Scorer::Player {
        -x_mag
    } else {
        x_mag
    }
}

/// The serve's vertical velocity: the drawn base pushed outward by the fixed
/// offset in the direction of its own sign (zero counts as positive).
pub open spec fn serve_vy(y_base: int) -> int {
    if y_base >= 0 {
        y_base + SERVE_Y_PUSH as int
    } else {
        y_base - SERVE_Y_PUSH as int
    }
}

/// What holds of every serve after a point for `scorer`, whatever the draws
/// were: both components are bounded away from zero, and the horizontal one
/// points at the side that conceded.
pub open spec fn serve_vel_ok(scorer: Scorer, v: Vec2) -> bool {
    &&& SERVE_X_MIN <= abs_i(v.x as int) < SERVE_X_MAX
    &&& SERVE_Y_PUSH <= abs_i(v.y as int) <= SERVE_Y_PUSH + SERVE_Y_SPREAD
    &&& (scorer == Scorer::Player ==> v.x < 0)
    &&& (scorer == Scorer::Ai ==> v.x > 0)
}

/// Relies on rand::random_range over `lo..hi`: the thread-local generator
/// returns a value of the range; an empty range would panic.
#[verifier::external_body]
fn random_in(lo: i64, hi: i64) -> (r: i64)
    requires
        lo < hi,
    ensures
        lo <= r < hi,
{
    rand::random_range(lo..hi)
}

/// Draw the serve's vertical base value.
pub fn random_serve_y_base() -> (r: i64)
    ensures
        -SERVE_Y_SPREAD <= r <= SERVE_Y_SPREAD,
{
    random_in(-SERVE_Y_SPREAD, SERVE_Y_SPREAD + 1)
}

/// Draw the serve's horizontal magnitude.
pub fn random_serve_x_mag() -> (r: i64)
    ensures
        SERVE_X_MIN <= r < SERVE_X_MAX,
{
    random_in(SERVE_X_MIN, SERVE_X_MAX)
}

/// Reset the ball for the serve the given draws dictate: back to the center,
/// with the velocity the serve rule computes from them. The shape is kept.
pub fn reset_ball_with(ball: &mut Ball, scorer: Scorer, y_base: i64, x_mag: i64)
    requires
        -SERVE_Y_SPREAD <= y_base <= SERVE_Y_SPREAD,
        SERVE_X_MIN <= x_mag < SERVE_X_MAX,
    ensures
        final(ball).pos == (Vec2 { x: 0, y: 0 }),
        final(ball).vel.x as int == serve_vx(scorer, x_mag as int),
        final(ball).vel.y as int == serve_vy(y_base as int),
        final(ball).radius == old(ball).radius,
        serve_vel_ok(scorer, final(ball).vel),
{
    ball.pos = Vec2 { x: 0, y: 0 };
    let vy: i64 = if y_base >= 0 {
        y_base + SERVE_Y_PUSH
    } else {
        y_base - SERVE_Y_PUSH
    };
    let vx: i64 = match scorer {
        Scorer::Player => -x_mag,
        Scorer::Ai => x_mag,
    };
    ball.vel = Vec2 { x: vx, y: vy };
}

/// Drain the mailbox into the ball: each event recenters the ball and deals
/// it a fresh random serve, so after a non-empty frame the ball sits at the
/// origin with a velocity that is never the zero vector and whose horizontal
/// sign matches the last event's serve rule. An empty mailbox changes
/// nothing.
pub fn reset_ball(ball: &mut Ball, events: &Vec<Scorer>)
    ensures
        final(ball).radius == old(ball).radius,
        events@.len() == 0 ==> *final(ball) == *old(ball),
        events@.len() > 0 ==> final(ball).pos == (Vec2 { x: 0, y: 0 }) && serve_vel_ok(
            events@.last(),
            final(ball).vel,
        ),
{
    let ghost orig: Ball = *ball;
    let mut i: usize = 0;
    while i < events.len()
        invariant
            0 <= i <= events@.len(),
            ball.radius == orig.radius,
            i == 0 ==> *ball == orig,
            i > 0 ==> ball.pos == (Vec2 { x: 0, y: 0 }) && serve_vel_ok(
                events@[i - 1],
                ball.vel,
            ),
        decreases events@.len() - i,
    {
        let y_base: i64 = random_serve_y_base();
        let x_mag: i64 = random_serve_x_mag();
        reset_ball_with(ball, events[i], y_base, x_mag);
        i = i + 1;
    }
}

} // verus!
