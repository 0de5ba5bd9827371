use pong::constants::{BLACK, RED, WHITE, WINDOW_HEIGHT, WINDOW_WIDTH};
use pong::frame::Game;
use pong::physics::Controls;

fn keys() -> Controls {
    Controls {
        player1_up: false,
        player1_down: false,
        player2_up: false,
        player2_down: false,
        reset: false,
        toggle_bot: false,
    }
}

#[test]
fn new_game_layout() {
    let g = Game::new(60);
    assert_eq!((g.player1.get_x(), g.player1.get_y()), (1, 180));
    assert_eq!((g.player2.get_x(), g.player2.get_y()), (629, 180));
    assert_eq!((g.ball.get_x(), g.ball.get_y()), (320, 180));
    assert_eq!(g.ball.get_speed(), 2_000_000);
    assert!(!g.game_over && !g.play_against_bot);
    assert_eq!(g.loop_count, 0);
}

#[test]
fn frame_speeds_up_and_counts() {
    let mut g = Game::new(60);
    g.finish_frame(&keys());
    assert_eq!(g.ball.get_speed(), 62_000_000);
    assert_eq!(g.loop_count, 1);
    g.finish_frame(&keys());
    assert_eq!(g.ball.get_speed(), 62_000_059);
    assert_eq!(g.loop_count, 2);
}

#[test]
fn toggle_and_reset_commands() {
    let mut g = Game::new(60);
    g.game_over = true;
    g.player1.set_y(40);
    let mut k = keys();
    k.toggle_bot = true;
    g.finish_frame(&k);
    assert!(g.play_against_bot && g.game_over);
    k.toggle_bot = false;
    k.reset = true;
    g.finish_frame(&k);
    assert!(g.play_against_bot && !g.game_over);
    assert_eq!(g.player1.get_y(), 180);
}

#[test]
fn play_only_while_round_runs() {
    let mut g = Game::new(60);
    g.ball.set_velocity_x(1_000_000);
    g.ball.set_velocity_y(0);
    g.ball.set_speed(10_000_000);
    let mut k = keys();
    k.player1_up = true;
    assert!(g.play(&k));
    assert_eq!(g.player1.get_y(), 170);
    assert_eq!(g.ball.get_x(), 330);
    assert_eq!(g.ball.get_history_x(), vec![330]);
    g.game_over = true;
    assert!(!g.play(&k));
    assert_eq!(g.player1.get_y(), 170);
    assert_eq!(g.ball.get_x(), 330);
}

#[test]
fn round_ends_on_side_wall() {
    let mut g = Game::new(60);
    g.ball.set_x(625);
    g.ball.set_velocity_x(1_000_000);
    g.ball.set_velocity_y(0);
    g.ball.set_speed(10_000_000);
    assert!(g.play(&keys()));
    assert!(g.game_over);
    assert_eq!(g.player1.get_score(), 1);
}

#[test]
fn draw_picks_screen() {
    let mut g = Game::new(60);
    let mut buf = vec![7u32; WINDOW_WIDTH * WINDOW_HEIGHT];
    g.draw(&mut buf, true);
    assert_eq!(buf[1 + WINDOW_WIDTH * 180], WHITE);
    assert_eq!(buf[320 + WINDOW_WIDTH * 180], RED);
    assert_eq!(buf[100 + WINDOW_WIDTH * 100], BLACK);
    g.loop_count = 0;
    g.draw(&mut buf, false);
    assert!(buf.iter().all(|c| *c == RED));
    assert_eq!(WINDOW_HEIGHT, 360);
}
