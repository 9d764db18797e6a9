//! Ball and paddle physics, on concrete values.

use pong_core::ball::Ball;
use pong_core::paddle::Paddle;

#[test]
fn ball_update_advances_linearly() {
    let mut b = Ball::new(10, 20, 4, 300);
    b.vel_x = 3;
    b.vel_y = -2;
    b.update(5);
    assert_eq!(b.x, 25);
    assert_eq!(b.y, 10);
    b.update(0);
    assert_eq!(b.x, 25);
    assert_eq!(b.y, 10);
    b.update(7);
    assert_eq!(b.x, 46);
    assert_eq!(b.y, -4);
}

#[test]
fn ball_new_starts_at_rest() {
    let b = Ball::new(400_000, 300_000, 12_000, 300);
    assert_eq!(b.x, 400_000);
    assert_eq!(b.y, 300_000);
    assert_eq!(b.size, 12_000);
    assert_eq!(b.vel_x, 0);
    assert_eq!(b.vel_y, 0);
}

#[test]
fn launch_gives_dominant_nonzero_horizontal_velocity() {
    for _ in 0..64 {
        let mut b = Ball::new(400_000, 300_000, 12_000, 300);
        b.launch();
        assert!(b.vel_x != 0);
        assert!(b.vel_x.abs() <= 300);
        assert!(b.vel_y.abs() <= b.vel_x.abs());
        assert_eq!(b.x, 400_000);
        assert_eq!(b.y, 300_000);
    }
}

#[test]
fn launch_picks_both_directions() {
    let mut saw_left = false;
    let mut saw_right = false;
    for _ in 0..256 {
        let mut b = Ball::new(0, 0, 12_000, 300);
        b.launch();
        if b.vel_x < 0 {
            saw_left = true;
        } else {
            saw_right = true;
        }
        if saw_left && saw_right {
            break;
        }
    }
    assert!(saw_left && saw_right);
}

#[test]
fn bounce_horizontal_reverses_and_speeds_up_five_percent() {
    let mut b = Ball::new(0, 0, 12_000, 300);
    b.vel_x = -2000;
    b.vel_y = 1000;
    b.bounce_horizontal();
    assert_eq!(b.vel_x, 2100);
    assert_eq!(b.vel_y, 1050);
}

#[test]
fn bounce_horizontal_compounds_multiplicatively() {
    let mut b = Ball::new(0, 0, 12_000, 300);
    b.vel_x = -400;
    b.vel_y = 400;
    b.bounce_horizontal();
    assert_eq!(b.vel_x, 420);
    assert_eq!(b.vel_y, 420);
    b.bounce_horizontal();
    assert_eq!(b.vel_x, -441);
    assert_eq!(b.vel_y, 441);
}

#[test]
fn bounce_vertical_only_flips_vertical() {
    let mut b = Ball::new(5, 6, 12_000, 300);
    b.vel_x = 77;
    b.vel_y = -33;
    b.bounce_vertical();
    assert_eq!(b.vel_x, 77);
    assert_eq!(b.vel_y, 33);
    assert_eq!(b.x, 5);
    assert_eq!(b.y, 6);
}

#[test]
fn wall_collision_fires_when_exactly_touching_top() {
    let mut b = Ball::new(50_000, 6_000, 12_000, 300);
    b.vel_y = -4;
    let collided = b.check_wall_collision(600_000);
    assert!(collided);
    assert_eq!(b.y, 6_000);
    assert_eq!(b.vel_y, 4);
}

#[test]
fn wall_collision_clamps_past_bottom() {
    let mut b = Ball::new(50_000, 599_000, 12_000, 300);
    b.vel_y = 9;
    let collided = b.check_wall_collision(600_000);
    assert!(collided);
    assert_eq!(b.y, 594_000);
    assert_eq!(b.vel_y, -9);
}

#[test]
fn wall_collision_leaves_interior_ball_alone() {
    let mut b = Ball::new(50_000, 300_000, 12_000, 300);
    b.vel_y = 9;
    let collided = b.check_wall_collision(600_000);
    assert!(!collided);
    assert_eq!(b.y, 300_000);
    assert_eq!(b.vel_y, 9);
}

#[test]
fn ball_reset_recenters_and_stops() {
    let mut b = Ball::new(11, 22, 12_000, 300);
    b.vel_x = 5;
    b.vel_y = -5;
    b.reset(800_000, 600_000);
    assert_eq!(b.x, 400_000);
    assert_eq!(b.y, 300_000);
    assert_eq!(b.vel_x, 0);
    assert_eq!(b.vel_y, 0);
    assert_eq!(b.size, 12_000);
}

#[test]
fn paddle_moves_are_exact_and_clamped() {
    let mut p = Paddle::new(30_000, 100_000, 15_000, 80_000, 400);
    p.move_up(10);
    assert_eq!(p.y, 96_000);
    p.move_down(10, 600_000);
    assert_eq!(p.y, 100_000);
    p.move_up(1_000_000_000_000);
    assert_eq!(p.y, 0);
    p.move_down(1_000_000_000_000, 600_000);
    assert_eq!(p.y, 520_000);
    p.move_down(0, 600_000);
    assert_eq!(p.y, 520_000);
}

#[test]
fn paddle_collision_counts_touching_edges() {
    let p = Paddle::new(100, 200, 50, 300, 7);
    assert!(p.check_collision(160, 510, 20));
    assert!(!p.check_collision(161, 510, 20));
    assert!(p.check_collision(90, 190, 20));
    assert!(!p.check_collision(89, 190, 20));
    assert!(!p.check_collision(90, 189, 20));
    assert!(p.check_collision(125, 350, 20));
}
