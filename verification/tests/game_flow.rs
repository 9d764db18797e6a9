//! Scoring, rounds, and the phase state machine, end to end.

use pong_core::game_state::{GamePhase, GameState};

fn playing_state() -> GameState {
    let mut gs = GameState::new(800_000, 600_000);
    gs.phase = GamePhase::Playing;
    gs
}

#[test]
fn new_game_starts_in_menu_with_default_layout() {
    let gs = GameState::new(800_000, 600_000);
    assert_eq!(gs.phase, GamePhase::Menu);
    assert_eq!(gs.score_left, 0);
    assert_eq!(gs.score_right, 0);
    assert_eq!(gs.max_score, 5);
    assert_eq!(gs.ball.x, 400_000);
    assert_eq!(gs.ball.y, 300_000);
    assert_eq!(gs.ball.vel_x, 0);
    assert_eq!(gs.ball.vel_y, 0);
    assert_eq!(gs.paddle_left.x, 30_000);
    assert_eq!(gs.paddle_right.x, 800_000 - 30_000 - 15_000);
    assert_eq!(gs.paddle_left.y, 260_000);
    assert_eq!(gs.paddle_right.y, 260_000);
}

#[test]
fn update_outside_playing_is_a_no_op() {
    for phase in [GamePhase::Menu, GamePhase::Paused, GamePhase::GameOver] {
        let mut gs = GameState::new(800_000, 600_000);
        gs.phase = phase;
        gs.ball.x = 123;
        gs.ball.vel_x = 456;
        gs.update(16);
        assert_eq!(gs.phase, phase);
        assert_eq!(gs.ball.x, 123);
        assert_eq!(gs.ball.vel_x, 456);
        assert_eq!(gs.score_left, 0);
        assert_eq!(gs.score_right, 0);
    }
}

#[test]
fn ball_out_left_scores_for_right_and_relaunches() {
    let mut gs = playing_state();
    gs.ball.x = -1;
    gs.ball.vel_x = 0;
    gs.ball.vel_y = 0;
    gs.update(0);
    assert_eq!(gs.score_right, 1);
    assert_eq!(gs.score_left, 0);
    assert_eq!(gs.phase, GamePhase::Playing);
    assert_eq!(gs.ball.x, 400_000);
    assert_eq!(gs.ball.y, 300_000);
    assert!(gs.ball.vel_x != 0);
}

#[test]
fn fifth_point_ends_the_game_and_freezes_it() {
    let mut gs = playing_state();
    for round in 0..5 {
        gs.ball.x = 800_001;
        gs.ball.y = 300_000;
        gs.ball.vel_x = 7;
        gs.ball.vel_y = 3;
        gs.update(0);
        assert_eq!(gs.score_left, round + 1);
    }
    assert_eq!(gs.score_left, 5);
    assert_eq!(gs.score_right, 0);
    assert_eq!(gs.phase, GamePhase::GameOver);
    assert_eq!(gs.ball.vel_x, 7);
    assert_eq!(gs.ball.vel_y, 3);
    let frozen_x = gs.ball.x;
    gs.update(16);
    assert_eq!(gs.phase, GamePhase::GameOver);
    assert_eq!(gs.ball.x, frozen_x);
    assert_eq!(gs.ball.vel_x, 7);
    assert_eq!(gs.score_left, 5);
}

#[test]
fn paddle_hit_reverses_and_repositions_the_ball() {
    let mut gs = playing_state();
    gs.ball.x = 46_000;
    gs.ball.y = 300_000;
    gs.ball.vel_x = -100;
    gs.ball.vel_y = 0;
    gs.paddle_left.y = 260_000;
    gs.update(10);
    assert_eq!(gs.ball.vel_x, 105);
    assert_eq!(gs.ball.x, 30_000 + 15_000 + 6_000);
    assert_eq!(gs.score_left, 0);
    assert_eq!(gs.score_right, 0);
    assert_eq!(gs.phase, GamePhase::Playing);
}

#[test]
fn start_round_launches_and_plays() {
    let mut gs = GameState::new(800_000, 600_000);
    gs.start_round();
    assert_eq!(gs.phase, GamePhase::Playing);
    assert_eq!(gs.ball.x, 400_000);
    assert_eq!(gs.ball.y, 300_000);
    assert!(gs.ball.vel_x != 0);
    assert!(gs.ball.vel_y.abs() <= gs.ball.vel_x.abs());
}

#[test]
fn reset_clears_scores_and_returns_to_menu_from_any_phase() {
    for phase in [
        GamePhase::Menu,
        GamePhase::Playing,
        GamePhase::Paused,
        GamePhase::GameOver,
    ] {
        let mut gs = GameState::new(800_000, 600_000);
        gs.phase = phase;
        gs.score_left = 3;
        gs.score_right = 4;
        gs.ball.x = 1;
        gs.ball.vel_x = 99;
        gs.reset();
        assert_eq!(gs.phase, GamePhase::Menu);
        assert_eq!(gs.score_left, 0);
        assert_eq!(gs.score_right, 0);
        assert_eq!(gs.ball.x, 400_000);
        assert_eq!(gs.ball.y, 300_000);
        assert_eq!(gs.ball.vel_x, 0);
        assert_eq!(gs.ball.vel_y, 0);
    }
}

#[test]
fn start_pause_action_walks_the_phase_machine() {
    let mut gs = GameState::new(800_000, 600_000);
    gs.handle_start_pause();
    assert_eq!(gs.phase, GamePhase::Playing);
    gs.handle_start_pause();
    assert_eq!(gs.phase, GamePhase::Paused);
    gs.handle_start_pause();
    assert_eq!(gs.phase, GamePhase::Playing);
    gs.phase = GamePhase::GameOver;
    gs.score_left = 5;
    gs.handle_start_pause();
    assert_eq!(gs.phase, GamePhase::Menu);
    assert_eq!(gs.score_left, 0);
}

#[test]
fn cancel_quits_from_menu_and_resets_elsewhere() {
    let mut gs = GameState::new(800_000, 600_000);
    assert!(gs.handle_cancel());
    assert_eq!(gs.phase, GamePhase::Menu);
    for phase in [GamePhase::Playing, GamePhase::Paused, GamePhase::GameOver] {
        gs.phase = phase;
        gs.score_right = 2;
        let quit = gs.handle_cancel();
        assert!(!quit);
        assert_eq!(gs.phase, GamePhase::Menu);
        assert_eq!(gs.score_right, 0);
    }
}
