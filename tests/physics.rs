use pong::constants::{WINDOW_HEIGHT, WINDOW_WIDTH};
use pong::objects::{build_new_ball, build_new_player, Ball, Player};
use pong::physics::{
    ball_physics, ball_physics_with_roll, bot_direction, classify_collision, handle_input,
    initialise_game, move_if_valid, Collision, Controls, Direction,
};

fn ball_at(x: u32, y: u32, vx: i32, vy: i32, speed: u64) -> Ball {
    let mut b = build_new_ball(x, y, (vx, vy), 30);
    b.set_speed(speed);
    b
}

fn paddles() -> (Player, Player) {
    (
        build_new_player(1, (WINDOW_HEIGHT / 2) as u32),
        build_new_player((WINDOW_WIDTH - 11) as u32, (WINDOW_HEIGHT / 2) as u32),
    )
}

fn no_keys() -> Controls {
    Controls {
        player1_up: false,
        player1_down: false,
        player2_up: false,
        player2_down: false,
        reset: false,
        toggle_bot: false,
    }
}

#[test]
fn move_up_clamps_to_one() {
    let mut p = build_new_player(1, 5);
    assert_eq!(p.get_width(), 10);
    assert_eq!(p.get_speed(), 10);
    move_if_valid(&mut p, Direction::Up);
    assert_eq!(p.get_y(), 1);
}

#[test]
fn move_up_by_speed() {
    let mut p = build_new_player(1, 100);
    move_if_valid(&mut p, Direction::Up);
    assert_eq!(p.get_y(), 90);
    let mut q = build_new_player(1, 11);
    move_if_valid(&mut q, Direction::Up);
    assert_eq!(q.get_y(), 1);
    let mut r = build_new_player(1, 10);
    move_if_valid(&mut r, Direction::Up);
    assert_eq!(r.get_y(), 1);
}

#[test]
fn move_down_clamps_to_bottom() {
    let mut p = build_new_player(1, 255);
    move_if_valid(&mut p, Direction::Down);
    assert_eq!(p.get_y(), 260);
    move_if_valid(&mut p, Direction::Down);
    assert_eq!(p.get_y(), 260);
    let mut q = build_new_player(1, 100);
    move_if_valid(&mut q, Direction::Down);
    assert_eq!(q.get_y(), 110);
}

#[test]
fn moves_stay_in_bounds_for_all_positions() {
    for y in 1..=260u32 {
        for speed in [0u32, 1, 7, 10, 50, 400] {
            let mut p = build_new_player(1, y);
            p.speed = speed;
            move_if_valid(&mut p, Direction::Up);
            assert!(p.get_y() >= 1 && p.get_y() <= y);
            let mut q = build_new_player(1, y);
            q.speed = speed;
            move_if_valid(&mut q, Direction::Down);
            assert!(q.get_y() + q.get_height() <= WINDOW_HEIGHT as u32);
        }
    }
}

#[test]
fn right_wall_scores_left_paddle() {
    let mut ball = ball_at(635, 100, 1_000_000, 0, 10_000_000);
    let (mut p1, mut p2) = paddles();
    assert_eq!(classify_collision(&ball, &p1, &p2), Collision::RightWall);
    let over = ball_physics(&mut ball, &mut p1, &mut p2);
    assert!(over);
    assert_eq!(p1.get_score(), 1);
    assert_eq!(p2.get_score(), 0);
    assert_eq!(ball.get_x(), 635);
    assert_eq!(ball.get_y(), 100);
    assert_eq!(ball.get_velocity_x(), -1_000_000);
    assert_eq!(ball.get_history_x().len(), 0);
}

#[test]
fn left_wall_scores_right_paddle() {
    let mut ball = ball_at(3, 100, -1_000_000, 0, 10_000_000);
    let (mut p1, mut p2) = paddles();
    assert_eq!(classify_collision(&ball, &p1, &p2), Collision::LeftWall);
    let over = ball_physics(&mut ball, &mut p1, &mut p2);
    assert!(over);
    assert_eq!(p1.get_score(), 0);
    assert_eq!(p2.get_score(), 1);
    assert_eq!(ball.get_x(), 3);
    assert_eq!(ball.get_velocity_x(), 1_000_000);
}

#[test]
fn top_wall_bounce_reverses_y() {
    let mut ball = ball_at(300, 2, 200_000, -900_000, 5_000_000);
    let (mut p1, mut p2) = paddles();
    assert_eq!(classify_collision(&ball, &p1, &p2), Collision::TopBottomWall);
    let over = ball_physics_with_roll(&mut ball, &mut p1, &mut p2, 5);
    assert!(!over);
    assert_eq!(ball.get_velocity_y(), 900_000);
    assert_eq!(ball.get_velocity_x(), 200_000);
    assert_eq!(ball.get_y(), 2);
    assert_eq!(ball.get_x(), 300);
    assert_eq!((p1.get_score(), p2.get_score()), (0, 0));
}

#[test]
fn top_wall_bounce_with_random_draw() {
    let mut ball = ball_at(300, 2, 200_000, -900_000, 5_000_000);
    let (mut p1, mut p2) = paddles();
    let over = ball_physics(&mut ball, &mut p1, &mut p2);
    assert!(!over);
    let v = (ball.get_velocity_x(), ball.get_velocity_y());
    assert!(v == (200_000, 900_000) || v == (300_000, 900_000) || v == (200_000, 350_000));
    assert_eq!(ball.get_y(), 2);
}

#[test]
fn bounce_amplifies_x_then_reduces() {
    let mut ball = ball_at(300, 2, 800_000, -900_000, 5_000_000);
    let (mut p1, mut p2) = paddles();
    ball_physics_with_roll(&mut ball, &mut p1, &mut p2, 1);
    assert_eq!(ball.get_velocity_x(), 200_000);
    assert_eq!(ball.get_velocity_y(), 900_000);
}

#[test]
fn bounce_amplifies_y_then_reduces() {
    let mut ball = ball_at(300, 355, 100_000, 900_000, 5_000_000);
    let (mut p1, mut p2) = paddles();
    assert_eq!(classify_collision(&ball, &p1, &p2), Collision::TopBottomWall);
    ball_physics_with_roll(&mut ball, &mut p1, &mut p2, 2);
    assert_eq!(ball.get_velocity_x(), 100_000);
    assert_eq!(ball.get_velocity_y(), -350_000);
}

#[test]
fn paddle_hit_reverses_x_only() {
    let (mut p1, mut p2) = paddles();
    let mut ball = ball_at(12, 200, -500_000, 0, 10_000_000);
    assert_eq!(classify_collision(&ball, &p1, &p2), Collision::Paddle);
    let over = ball_physics_with_roll(&mut ball, &mut p1, &mut p2, 0);
    assert!(!over);
    assert_eq!(ball.get_velocity_x(), 500_000);
    assert_eq!(ball.get_velocity_y(), 0);
    assert_eq!(ball.get_x(), 12);
    let mut right = ball_at(615, 200, 500_000, 0, 10_000_000);
    assert_eq!(classify_collision(&right, &p1, &p2), Collision::Paddle);
    ball_physics_with_roll(&mut right, &mut p1, &mut p2, 0);
    assert_eq!(right.get_velocity_x(), -500_000);
}

#[test]
fn wall_wins_over_paddle() {
    let (p1, p2) = paddles();
    let ball = ball_at(5, 200, -1_000_000, 0, 10_000_000);
    assert_eq!(classify_collision(&ball, &p1, &p2), Collision::LeftWall);
    let low = ball_at(300, 355, 0, 1_000_000, 10_000_000);
    assert_eq!(classify_collision(&low, &p1, &p2), Collision::TopBottomWall);
}

#[test]
fn free_flight_moves_and_records() {
    let mut ball = ball_at(320, 180, 500_000, -250_000, 10_000_000);
    let (mut p1, mut p2) = paddles();
    assert_eq!(classify_collision(&ball, &p1, &p2), Collision::Free);
    let over = ball_physics(&mut ball, &mut p1, &mut p2);
    assert!(!over);
    assert_eq!(ball.get_x(), 325);
    assert_eq!(ball.get_y(), 178);
    assert_eq!(ball.get_history_x(), vec![325]);
    assert_eq!(ball.get_history_y(), vec![178]);
    ball_physics(&mut ball, &mut p1, &mut p2);
    assert_eq!(ball.get_history_x(), vec![325, 330]);
    assert_eq!(ball.get_history_y(), vec![178, 176]);
}

#[test]
fn step_rounds_toward_positive_infinity() {
    // -0.45 * 10 = -4.5 rounds to -4; 0.45 * 10 = 4.5 rounds to 5.
    let mut ball = ball_at(320, 180, -450_000, 450_000, 10_000_000);
    let (mut p1, mut p2) = paddles();
    ball_physics(&mut ball, &mut p1, &mut p2);
    assert_eq!(ball.get_x(), 316);
    assert_eq!(ball.get_y(), 185);
}

#[test]
fn scores_change_only_on_side_walls() {
    let (mut p1, mut p2) = paddles();
    let mut ball = ball_at(320, 180, 500_000, 0, 10_000_000);
    for _ in 0..5 {
        ball_physics_with_roll(&mut ball, &mut p1, &mut p2, 3);
    }
    assert_eq!((p1.get_score(), p2.get_score()), (0, 0));
}

#[test]
fn bot_follows_ball() {
    let (_, p2) = paddles();
    let above = ball_at(320, 100, 0, 0, 0);
    let below = ball_at(320, 300, 0, 0, 0);
    let level = ball_at(320, 230, 0, 0, 0);
    assert_eq!(bot_direction(&above, &p2), Some(Direction::Up));
    assert_eq!(bot_direction(&below, &p2), Some(Direction::Down));
    assert_eq!(bot_direction(&level, &p2), None);
}

#[test]
fn input_moves_paddles() {
    let (mut p1, mut p2) = paddles();
    let ball = ball_at(320, 10, 0, 0, 0);
    let mut keys = no_keys();
    keys.player1_up = true;
    keys.player2_down = true;
    handle_input(&keys, &mut p1, &mut p2, &ball, false);
    assert_eq!(p1.get_y(), 170);
    assert_eq!(p2.get_y(), 190);
    handle_input(&keys, &mut p1, &mut p2, &ball, true);
    assert_eq!(p1.get_y(), 160);
    assert_eq!(p2.get_y(), 180);
    keys.player1_down = true;
    handle_input(&keys, &mut p1, &mut p2, &ball, false);
    assert_eq!(p1.get_y(), 160);
}

#[test]
fn reset_twice_recentres() {
    let (mut p1, mut p2) = paddles();
    p1.set_y(30);
    p2.set_y(200);
    p1.set_score(3);
    let mut ball = ball_at(600, 20, 300_000, 300_000, 10_000_000);
    ball.add_to_history_x(600);
    ball.add_to_history_y(20);
    for _ in 0..2 {
        let over = initialise_game(&mut p1, &mut p2, &mut ball);
        assert!(!over);
        assert_eq!(p1.get_y(), 180);
        assert_eq!(p2.get_y(), 180);
        assert_eq!(ball.get_x(), 320);
        assert_eq!(ball.get_y(), 180);
        assert!(ball.get_velocity_x() > -1_000_000 && ball.get_velocity_x() < 1_000_000);
        assert!(ball.get_velocity_y() > -1_000_000 && ball.get_velocity_y() < 1_000_000);
        assert_eq!(p1.get_score(), 3);
        assert_eq!(ball.get_history_x(), vec![600]);
        assert_eq!(ball.get_history_y(), vec![20]);
    }
}

#[test]
fn trail_never_shrinks_while_playing() {
    let (mut p1, mut p2) = paddles();
    let mut ball = ball_at(320, 180, 700_000, 300_000, 3_000_000);
    let mut len = 0;
    for _ in 0..200 {
        let c = classify_collision(&ball, &p1, &p2);
        let over = ball_physics(&mut ball, &mut p1, &mut p2);
        let now = ball.get_history_x().len();
        assert_eq!(now, if c == Collision::Free { len + 1 } else { len });
        assert_eq!(ball.get_history_y().len(), now);
        len = now;
        if over {
            initialise_game(&mut p1, &mut p2, &mut ball);
            assert_eq!(ball.get_history_x().len(), len);
        }
    }
}
