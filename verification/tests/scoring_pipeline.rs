use pong::entities::Ball;
use pong::entities::Score;
use pong::entities::Scorer;
use pong::geom::Vec2;
use pong::scoreboard::u32_to_decimal;
use pong::scoreboard::Scoreboard;
use pong::scoreboard::update_scoreboard;
use pong::scoring::detect_scoring;
use pong::scoring::random_serve_x_mag;
use pong::scoring::random_serve_y_base;
use pong::scoring::reset_ball;
use pong::scoring::reset_ball_with;
use pong::scoring::update_score;

fn ball_at(px: i64, py: i64, vx: i64, vy: i64) -> Ball {
    Ball { pos: Vec2 { x: px, y: py }, vel: Vec2 { x: vx, y: vy }, radius: 5 }
}

#[test]
fn crossing_right_boundary_scores_for_player() {
    // Window width 800: the boundary sits at x = 400.
    let ball = ball_at(401, 0, 5, 0);
    assert_eq!(detect_scoring(&ball, 800), Some(Scorer::Player));
}

#[test]
fn crossing_left_boundary_scores_for_ai() {
    let ball = ball_at(-401, 0, -5, 0);
    assert_eq!(detect_scoring(&ball, 800), Some(Scorer::Ai));
}

#[test]
fn ball_on_or_within_boundary_scores_for_nobody() {
    assert_eq!(detect_scoring(&ball_at(400, 0, 5, 0), 800), None);
    assert_eq!(detect_scoring(&ball_at(-400, 0, -5, 0), 800), None);
    assert_eq!(detect_scoring(&ball_at(0, 123, 5, 0), 800), None);
}

#[test]
fn interleaved_events_count_exactly_per_side() {
    let mut score = Score { player: 0, ai: 0 };
    let events = vec![Scorer::Player, Scorer::Ai, Scorer::Player, Scorer::Player];
    update_score(&mut score, &events);
    assert_eq!(score.player, 3);
    assert_eq!(score.ai, 1);
    // A later batch keeps adding; counters never reset.
    let later = vec![Scorer::Ai, Scorer::Ai];
    update_score(&mut score, &later);
    assert_eq!(score.player, 3);
    assert_eq!(score.ai, 3);
}

#[test]
fn empty_mailbox_changes_no_counter() {
    let mut score = Score { player: 7, ai: 2 };
    let events: Vec<Scorer> = vec![];
    update_score(&mut score, &events);
    assert_eq!(score, Score { player: 7, ai: 2 });
}

#[test]
fn reset_serves_away_from_the_player_after_a_player_point() {
    let mut ball = ball_at(405, 37, 5, 2);
    reset_ball_with(&mut ball, Scorer::Player, 1, 4);
    assert_eq!(ball.pos, Vec2 { x: 0, y: 0 });
    assert_eq!(ball.vel, Vec2 { x: -4, y: 5 });
    assert_eq!(ball.radius, 5);
}

#[test]
fn reset_serves_away_from_the_ai_after_an_ai_point() {
    let mut ball = ball_at(-405, -12, -5, 2);
    reset_ball_with(&mut ball, Scorer::Ai, -1, 6);
    assert_eq!(ball.pos, Vec2 { x: 0, y: 0 });
    assert_eq!(ball.vel, Vec2 { x: 6, y: -5 });
}

#[test]
fn zero_base_draw_is_pushed_upward() {
    let mut ball = ball_at(405, 0, 5, 0);
    reset_ball_with(&mut ball, Scorer::Player, 0, 5);
    assert_eq!(ball.vel, Vec2 { x: -5, y: 4 });
}

#[test]
fn random_reset_recenters_and_is_never_flat() {
    for _ in 0..50 {
        let mut ball = ball_at(405, 37, 5, 2);
        let events = vec![Scorer::Player];
        reset_ball(&mut ball, &events);
        assert_eq!(ball.pos, Vec2 { x: 0, y: 0 });
        assert!(ball.vel.x <= -4 && ball.vel.x >= -6);
        assert!(ball.vel.y.abs() >= 4 && ball.vel.y.abs() <= 5);
    }
}

#[test]
fn random_reset_with_empty_mailbox_is_a_no_op() {
    let mut ball = ball_at(13, 37, 5, 2);
    let events: Vec<Scorer> = vec![];
    reset_ball(&mut ball, &events);
    assert_eq!(ball.pos, Vec2 { x: 13, y: 37 });
    assert_eq!(ball.vel, Vec2 { x: 5, y: 2 });
}

#[test]
fn serve_draws_stay_in_their_ranges() {
    for _ in 0..50 {
        let y_base = random_serve_y_base();
        assert!((-1..=1).contains(&y_base));
        let x_mag = random_serve_x_mag();
        assert!((4..7).contains(&x_mag));
    }
}

#[test]
fn decimal_rendering_is_exact() {
    assert_eq!(u32_to_decimal(0), b"0".to_vec());
    assert_eq!(u32_to_decimal(7), b"7".to_vec());
    assert_eq!(u32_to_decimal(10), b"10".to_vec());
    assert_eq!(u32_to_decimal(12345), b"12345".to_vec());
    assert_eq!(u32_to_decimal(u32::MAX), b"4294967295".to_vec());
}

#[test]
fn scoreboard_starts_at_zero() {
    let sb = Scoreboard::new();
    assert_eq!(sb.player_text, b"0".to_vec());
    assert_eq!(sb.ai_text, b"0".to_vec());
    assert_eq!(sb.refreshes, 0);
}

#[test]
fn scoreboard_rewrites_only_on_change() {
    let mut sb = Scoreboard::new();
    let score = Score { player: 12, ai: 3 };
    update_scoreboard(&mut sb, &score);
    assert_eq!(sb.player_text, 12u32.to_string().into_bytes());
    assert_eq!(sb.ai_text, 3u32.to_string().into_bytes());
    assert_eq!(sb.refreshes, 1);
    // The same score again writes nothing.
    update_scoreboard(&mut sb, &score);
    assert_eq!(sb.refreshes, 1);
    assert_eq!(sb.player_text, 12u32.to_string().into_bytes());
    // A further change writes again.
    let next = Score { player: 12, ai: 4 };
    update_scoreboard(&mut sb, &next);
    assert_eq!(sb.refreshes, 2);
    assert_eq!(sb.ai_text, 4u32.to_string().into_bytes());
}
