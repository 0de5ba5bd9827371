//! The frame controller: one round in play or over, advanced one frame at
//! a time from the commands held in that frame.
use vstd::prelude::*;
use crate::constants::{BLACK, UNIT, WINDOW_HEIGHT, WINDOW_WIDTH};
use crate::objects::{Ball, Player, build_new_ball, build_new_player};
use crate::physics::{
    Controls,
    after_bot,
    after_keys,
    ball_physics,
    ball_reset,
    collision_of,
    handle_input,
    initialise_game,
    recentred,
    tick_post,
};
use crate::random::random_between;
use crate::render::{
    ball_in_field,
    calc_image,
    clear_buffer,
    draw_game_over_screen,
    flashes,
    frame_drawn,
    ball_drawn,
    paddle_in_field,
    scores_fit,
    solid,
    trail_in_field,
};

verus! {

/// Speed added to the ball at the end of frame `frame`, in micro-units:
/// `fps / (1 + frame * 1_000_000)` pixels per frame.
pub open spec fn speed_ramp(fps: int, frame: int) -> int {
    fps * UNIT / (1 + frame * 1_000_000)
}

/// The paddles after the frame's input: the left one by its keys, the right
/// one by its keys or, in bot mode, toward the ball.
pub open spec fn paddles_after_input(g: Game, c: Controls) -> (Player, Player) {
    (
        after_keys(g.player1, c.player1_up, c.player1_down),
        if g.play_against_bot {
            after_bot(g.player2, g.ball.position_y as int)
        } else {
            after_keys(g.player2, c.player2_up, c.player2_down)
        },
    )
}

/// `b` is `a` with only its speed possibly changed.
pub open spec fn same_but_speed(a: Ball, b: Ball) -> bool {
    &&& b.position_x == a.position_x
    &&& b.position_y == a.position_y
    &&& b.velocity_x == a.velocity_x
    &&& b.velocity_y == a.velocity_y
    &&& b.width == a.width
    &&& b.height == a.height
    &&& b.history_pos_x@ == a.history_pos_x@
    &&& b.history_pos_y@ == a.history_pos_y@
}

/// The whole state of a game: the left and right paddles, the ball,
/// whether the round is over, who controls the right paddle, the frame
/// counter and the frame rate.
pub struct Game {
    pub player1: Player,
    pub player2: Player,
    pub ball: Ball,
    pub game_over: bool,
    pub play_against_bot: bool,
    pub loop_count: u32,
    pub fps: u32,
}

impl Game {
    /// Paddles and ball lie in the field with room to be recentred, the
    /// ball is 10 by 10, and its trail is made of pixels of the field.
    pub open spec fn wf(&self) -> bool {
        &&& self.ball.wf()
        &&& self.ball.width == 10
        &&& self.ball.height == 10
        &&& ball_in_field(self.ball)
        &&& trail_in_field(self.ball)
        &&& paddle_in_field(self.player1)
        &&& paddle_in_field(self.player2)
        &&& self.player1.height <= WINDOW_HEIGHT / 2
        &&& self.player2.height <= WINDOW_HEIGHT / 2
    }

    /// A game at its first frame: the left paddle at column 1, the right one
    /// at the right edge less 11, both vertically centred; the ball centred
    /// with a random direction; no points, no bot, round in play.
    pub fn new(fps: u32) -> (g: Game)
        ensures
            g.wf(),
            g.player1 == (Player {
                position_x: 1,
                position_y: (WINDOW_HEIGHT / 2) as u32,
                speed: 10,
                width: 10,
                height: 100,
                score: 0,
            }),
            g.player2 == (Player {
                position_x: (WINDOW_WIDTH - 11) as u32,
                position_y: (WINDOW_HEIGHT / 2) as u32,
                speed: 10,
                width: 10,
                height: 100,
                score: 0,
            }),
            g.ball.position_x == WINDOW_WIDTH / 2,
            g.ball.position_y == WINDOW_HEIGHT / 2,
            -UNIT < g.ball.velocity_x < UNIT,
            -UNIT < g.ball.velocity_y < UNIT,
            g.ball.speed == fps * UNIT / 30,
            g.ball.history_pos_x@.len() == 0,
            !g.game_over,
            !g.play_against_bot,
            g.loop_count == 0,
            g.fps == fps,
    {
        let mut player1 = build_new_player(1, (WINDOW_HEIGHT / 2) as u32);
        let mut player2 = build_new_player((WINDOW_WIDTH - 11) as u32, (WINDOW_HEIGHT / 2) as u32);
        let vx = random_between(-1_000_000, 1_000_000);
        let vy = random_between(-1_000_000, 1_000_000);
        let mut ball = build_new_ball(
            (WINDOW_WIDTH / 2) as u32,
            (WINDOW_HEIGHT / 2) as u32,
            (vx, vy),
            fps,
        );
        let game_over = initialise_game(&mut player1, &mut player2, &mut ball);
        Game {
            player1,
            player2,
            ball,
            game_over,
            play_against_bot: false,
            loop_count: 0,
            fps,
        }
    }

    /// The play part of a frame: while the round is in play, the paddles
    /// follow the input and the ball makes one tick, which may end the
    /// round. Returns whether the round was in play.
    pub fn play(&mut self, controls: &Controls) -> (played: bool)
        requires
            old(self).wf(),
            old(self).player1.score < u32::MAX,
            old(self).player2.score < u32::MAX,
        ensures
            final(self).wf(),
            played == !old(self).game_over,
            !played ==> *final(self) == *old(self),
            played ==> tick_post(
                old(self).ball,
                paddles_after_input(*old(self), *controls).0,
                paddles_after_input(*old(self), *controls).1,
                final(self).ball,
                final(self).player1,
                final(self).player2,
                final(self).game_over,
            ),
            final(self).ball.history_pos_x@.len() >= old(self).ball.history_pos_x@.len(),
            final(self).play_against_bot == old(self).play_against_bot,
            final(self).loop_count == old(self).loop_count,
            final(self).fps == old(self).fps,
    {
        if self.game_over {
            return false;
        }
        handle_input(
            controls,
            &mut self.player1,
            &mut self.player2,
            &self.ball,
            self.play_against_bot,
        );
        let ghost b0 = self.ball;
        let ghost q1 = self.player1;
        let ghost q2 = self.player2;
        let over = ball_physics(&mut self.ball, &mut self.player1, &mut self.player2);
        self.game_over = over;
        proof {
            let c = collision_of(b0, q1, q2);
            if c == crate::physics::Collision::Free {
                assert forall|i: int| 0 <= i < self.ball.history_pos_x@.len() implies #[trigger]
                    self.ball.history_pos_x@[i] < WINDOW_WIDTH && self.ball.history_pos_y@[i]
                    < WINDOW_HEIGHT by {
                    if i < b0.history_pos_x@.len() {
                        assert(self.ball.history_pos_x@[i] == b0.history_pos_x@[i]);
                        assert(self.ball.history_pos_y@[i] == b0.history_pos_y@[i]);
                    }
                }
            }
        }
        true
    }

    /// Draws the frame: the round in play over a cleared field when
    /// `played`, else the screen of a round that is over.
    pub fn draw(&self, buffer: &mut Vec<u32>, played: bool)
        requires
            self.wf(),
            old(buffer)@.len() == WINDOW_WIDTH * WINDOW_HEIGHT,
            played ==> scores_fit(self.player1, self.player2),
        ensures
            played ==> final(buffer)@ == frame_drawn(
                solid((WINDOW_WIDTH * WINDOW_HEIGHT) as nat, BLACK),
                self.player1,
                self.player2,
                self.ball,
                self.loop_count,
            ),
            !played ==> final(buffer)@ == if flashes(self.loop_count as int) {
                solid((WINDOW_WIDTH * WINDOW_HEIGHT) as nat, crate::constants::RED)
            } else {
                ball_drawn(
                    solid((WINDOW_WIDTH * WINDOW_HEIGHT) as nat, BLACK),
                    self.ball,
                    self.loop_count,
                )
            },
    {
        if played {
            clear_buffer(buffer);
            calc_image(buffer, &self.player1, &self.player2, &self.ball, self.loop_count);
        } else {
            draw_game_over_screen(buffer, &self.ball, self.loop_count);
        }
    }

    /// The end of a frame: the reset command starts a new round, the bot
    /// command switches who controls the right paddle, the ball speeds up by
    /// `speed_ramp` (saturating), and the frame counter advances.
    pub fn finish_frame(&mut self, controls: &Controls)
        requires
            old(self).wf(),
            old(self).loop_count < u32::MAX,
        ensures
            final(self).wf(),
            controls.reset ==> {
                &&& final(self).player1 == recentred(old(self).player1)
                &&& final(self).player2 == recentred(old(self).player2)
                &&& !final(self).game_over
                &&& ball_reset(old(self).ball, Ball { speed: old(self).ball.speed, ..final(self).ball })
            },
            !controls.reset ==> {
                &&& final(self).player1 == old(self).player1
                &&& final(self).player2 == old(self).player2
                &&& final(self).game_over == old(self).game_over
                &&& same_but_speed(old(self).ball, final(self).ball)
            },
            final(self).ball.history_pos_x@ == old(self).ball.history_pos_x@,
            final(self).ball.history_pos_y@ == old(self).ball.history_pos_y@,
            final(self).play_against_bot == (old(self).play_against_bot != controls.toggle_bot),
            final(self).ball.speed == if old(self).ball.speed + speed_ramp(
                old(self).fps as int,
                old(self).loop_count as int,
            ) > u64::MAX {
                u64::MAX as int
            } else {
                old(self).ball.speed + speed_ramp(old(self).fps as int, old(self).loop_count as int)
            },
            final(self).loop_count == old(self).loop_count + 1,
            final(self).fps == old(self).fps,
    {
        if controls.reset {
            self.game_over = initialise_game(&mut self.player1, &mut self.player2, &mut self.ball);
        }
        if controls.toggle_bot {
            self.play_against_bot = !self.play_against_bot;
        }
        let increase: u64 = (self.fps as u64 * 1_000_000) / (1 + self.loop_count as u64 * 1_000_000);
        let speed = self.ball.get_speed();
        if speed > u64::MAX - increase {
            self.ball.set_speed(u64::MAX);
        } else {
            self.ball.set_speed(speed + increase);
        }
        self.loop_count = self.loop_count + 1;
    }
}

} // verus!
