use pong::entities::Score;
use pong::frame::World;
use pong::geom::Vec2;
use pong::input::KeyState;

const NO_KEYS: KeyState =
    KeyState { player_up: false, player_down: false, ai_up: false, ai_down: false };

#[test]
fn spawn_layout_matches_the_window() {
    let w = World::new(800, 600);
    assert_eq!(w.ball.pos, Vec2 { x: 0, y: 0 });
    assert_eq!(w.ball.vel, Vec2 { x: 5, y: 0 });
    assert_eq!(w.ball.radius, 5);
    assert_eq!(w.player.pos, Vec2 { x: -350, y: 0 });
    assert_eq!(w.ai.pos, Vec2 { x: 350, y: 0 });
    assert_eq!(w.player.size, Vec2 { x: 10, y: 50 });
    assert_eq!(w.gutter_top.pos, Vec2 { x: 0, y: 290 });
    assert_eq!(w.gutter_bottom.pos, Vec2 { x: 0, y: -290 });
    assert_eq!(w.gutter_top.size, Vec2 { x: 800, y: 20 });
    assert_eq!(w.score, Score { player: 0, ai: 0 });
}

#[test]
fn one_quiet_frame_moves_the_ball_only() {
    let mut w = World::new(800, 600);
    w.step_with_serve(NO_KEYS, 0, 4);
    assert_eq!(w.ball.pos, Vec2 { x: 5, y: 0 });
    assert_eq!(w.ball.vel, Vec2 { x: 5, y: 0 });
    assert_eq!(w.player.pos, Vec2 { x: -350, y: 0 });
    assert_eq!(w.score, Score { player: 0, ai: 0 });
    assert_eq!(w.scoreboard.refreshes, 0);
}

#[test]
fn keys_drive_the_paddles() {
    let mut w = World::new(800, 600);
    let keys = KeyState { player_up: true, player_down: false, ai_up: false, ai_down: true };
    w.step_with_serve(keys, 0, 4);
    assert_eq!(w.player.vel.y, 5);
    assert_eq!(w.player.pos.y, 5);
    assert_eq!(w.ai.vel.y, -5);
    assert_eq!(w.ai.pos.y, -5);
    // Releasing every key stops both paddles where they are.
    w.step_with_serve(NO_KEYS, 0, 4);
    assert_eq!(w.player.vel.y, 0);
    assert_eq!(w.player.pos.y, 5);
    assert_eq!(w.ai.pos.y, -5);
}

#[test]
fn a_scoring_frame_runs_the_whole_pipeline() {
    let mut w = World::new(800, 600);
    w.ball.pos = Vec2 { x: 398, y: 40 };
    w.ball.vel = Vec2 { x: 5, y: 0 };
    w.step_with_serve(NO_KEYS, 0, 4);
    // 403 > 400: the player scores, once.
    assert_eq!(w.score, Score { player: 1, ai: 0 });
    assert_eq!(w.ball.pos, Vec2 { x: 0, y: 0 });
    assert_eq!(w.ball.vel, Vec2 { x: -4, y: 4 });
    assert_eq!(w.scoreboard.player_text, b"1".to_vec());
    assert_eq!(w.scoreboard.ai_text, b"0".to_vec());
    assert_eq!(w.scoreboard.refreshes, 1);
}

#[test]
fn random_step_still_pins_the_motion() {
    let mut w = World::new(800, 600);
    w.step(NO_KEYS);
    assert_eq!(w.ball.pos, Vec2 { x: 5, y: 0 });
    assert_eq!(w.score, Score { player: 0, ai: 0 });
}

#[test]
fn eighty_one_frames_end_in_exactly_one_player_point() {
    // Arena half-width 400, ball serving right at 5 per frame: after the
    // first frame it sits at (5, 0); frame 80 leaves it exactly on the
    // boundary, which does not score; frame 81 crosses and scores once.
    let mut w = World::new(800, 600);
    w.step_with_serve(NO_KEYS, 1, 4);
    assert_eq!(w.ball.pos, Vec2 { x: 5, y: 0 });
    for _ in 1..80 {
        w.step_with_serve(NO_KEYS, 1, 4);
    }
    assert_eq!(w.ball.pos, Vec2 { x: 400, y: 0 });
    assert_eq!(w.score, Score { player: 0, ai: 0 });
    assert_eq!(w.scoreboard.refreshes, 0);
    w.step_with_serve(NO_KEYS, 1, 4);
    assert_eq!(w.score, Score { player: 1, ai: 0 });
    assert_eq!(w.ball.pos, Vec2 { x: 0, y: 0 });
    assert!(w.ball.vel.x < 0);
    assert_eq!(w.scoreboard.player_text, b"1".to_vec());
    assert_eq!(w.scoreboard.refreshes, 1);
}
