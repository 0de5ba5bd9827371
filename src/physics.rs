//! Paddle motion, ball motion, collisions, scoring and the round reset.
use vstd::prelude::*;
use crate::constants::{UNIT, WINDOW_HEIGHT, WINDOW_WIDTH};
use crate::fixed::{ceil_div, ceil_div_exec, rem_unit, rem_unit_exec, three_halves, three_halves_exec};
use crate::objects::{Ball, Player, same_body};
use crate::random::random_between;

verus! {

/// Which way a paddle is asked to move.
#[derive(Clone, Copy, Debug, PartialEq, Eq, Structural)]
pub enum Direction {
    Up,
    Down,
}

/// The paddle `p` after one move in `direction`: up by its speed but never
/// above row 1, or down by its speed but never past the bottom edge.
pub open spec fn moved(p: Player, direction: Direction) -> Player {
    match direction {
        Direction::Up => {
            if p.position_y <= p.speed {
                Player { position_y: 1, ..p }
            } else {
                Player { position_y: (p.position_y - p.speed) as u32, ..p }
            }
        },
        Direction::Down => {
            if p.position_y + p.speed + p.height > WINDOW_HEIGHT {
                Player { position_y: (WINDOW_HEIGHT - p.height) as u32, ..p }
            } else {
                Player { position_y: (p.position_y + p.speed) as u32, ..p }
            }
        },
    }
}

/// Moves the paddle one step in `direction`, clamped to the field.
pub fn move_if_valid(player: &mut Player, direction: Direction)
    requires
        direction == Direction::Down ==> old(player).height <= WINDOW_HEIGHT,
    ensures
        *final(player) == moved(*old(player), direction),
        direction == Direction::Up ==> final(player).position_y >= 1,
        direction == Direction::Up && old(player).position_y >= 1 ==> final(player).position_y
            <= old(player).position_y,
        direction == Direction::Down ==> final(player).position_y + final(player).height
            <= WINDOW_HEIGHT,
{
    let distance = player.get_speed();
    match direction {
        Direction::Up => {
            let y = player.get_y();
            if y <= distance {
                player.set_y(1);
            } else {
                player.set_y(y - distance);
            }
        },
        Direction::Down => {
            let y = player.get_y();
            let h = player.get_height();
            if y as u64 + distance as u64 + h as u64 > WINDOW_HEIGHT as u64 {
                player.set_y(WINDOW_HEIGHT as u32 - h);
            } else {
                player.set_y(y + distance);
            }
        },
    }
}

/// The outcome of one tick of the ball, in the order in which the cases
/// are tested.
#[derive(Clone, Copy, Debug, PartialEq, Eq, Structural)]
pub enum Collision {
    LeftWall,
    RightWall,
    TopBottomWall,
    Paddle,
    Free,
}

/// Horizontal displacement of one tick: `ceil(direction_x * speed)`.
pub open spec fn step_x(b: Ball) -> int {
    ceil_div(b.velocity_x * b.speed, UNIT * UNIT)
}

/// Vertical displacement of one tick: `ceil(direction_y * speed)`.
pub open spec fn step_y(b: Ball) -> int {
    ceil_div(b.velocity_y * b.speed, UNIT * UNIT)
}

pub open spec fn next_x(b: Ball) -> int {
    b.position_x + step_x(b)
}

pub open spec fn next_y(b: Ball) -> int {
    b.position_y + step_y(b)
}

pub open spec fn hits_left_wall(b: Ball) -> bool {
    next_x(b) < 0
}

pub open spec fn hits_right_wall(b: Ball) -> bool {
    next_x(b) + b.width > WINDOW_WIDTH
}

pub open spec fn hits_top_or_bottom(b: Ball) -> bool {
    next_y(b) < 0 || next_y(b) + b.height > WINDOW_HEIGHT
}

/// The ball's next left edge lies strictly inside the left paddle `p`, and
/// its next top edge strictly inside `p`'s vertical span.
pub open spec fn overlaps_left_paddle(b: Ball, p: Player) -> bool {
    &&& next_x(b) > p.position_x
    &&& next_x(b) < p.position_x + p.width
    &&& next_y(b) > p.position_y
    &&& next_y(b) < p.position_y + p.height
}

/// The ball's next right edge lies strictly inside the right paddle `p`,
/// and its next top edge strictly inside `p`'s vertical span.
pub open spec fn overlaps_right_paddle(b: Ball, p: Player) -> bool {
    &&& next_x(b) + b.width > p.position_x
    &&& next_x(b) + b.width < p.position_x + p.width
    &&& next_y(b) > p.position_y
    &&& next_y(b) < p.position_y + p.height
}

/// The single outcome of a tick of `b` between the left paddle `p1` and the
/// right paddle `p2`: walls first, then paddles.
pub open spec fn collision_of(b: Ball, p1: Player, p2: Player) -> Collision {
    if hits_left_wall(b) {
        Collision::LeftWall
    } else if hits_right_wall(b) {
        Collision::RightWall
    } else if hits_top_or_bottom(b) {
        Collision::TopBottomWall
    } else if overlaps_left_paddle(b, p1) || overlaps_right_paddle(b, p2) {
        Collision::Paddle
    } else {
        Collision::Free
    }
}

} // verus!

verus! {

/// `|v * s| < 2^96` for a direction component and a speed.
proof fn lemma_product_bound(v: int, s: int)
    requires
        -0x8000_0000 <= v < 0x8000_0000,
        0 <= s < 0x1_0000_0000_0000_0000,
    ensures
        -0x1_0000_0000_0000_0000_0000_0000 < v * s < 0x1_0000_0000_0000_0000_0000_0000,
{
    assert(-0x1_0000_0000_0000_0000_0000_0000 < v * s < 0x1_0000_0000_0000_0000_0000_0000)
        by (nonlinear_arith)
        requires
            -0x8000_0000 <= v < 0x8000_0000,
            0 <= s < 0x1_0000_0000_0000_0000,
    ;
}

/// One axis of a tick's displacement: `ceil(v * speed)` in pixels.
fn axis_step(v: i32, speed: u64) -> (d: i128)
    ensures
        d == ceil_div(v * speed, UNIT * UNIT),
        -0x2_0000_0000_0000_0000_0000_0000 < d < 0x2_0000_0000_0000_0000_0000_0000,
{
    proof {
        lemma_product_bound(v as int, speed as int);
    }
    let n: i128 = (v as i128) * (speed as i128);
    ceil_div_exec(n, 1_000_000_000_000)
}

/// Decides which single outcome the next tick of `ball` has.
pub fn classify_collision(ball: &Ball, player1: &Player, player2: &Player) -> (c: Collision)
    ensures
        c == collision_of(*ball, *player1, *player2),
{
    let nx: i128 = ball.position_x as i128 + axis_step(ball.velocity_x, ball.speed);
    let ny: i128 = ball.position_y as i128 + axis_step(ball.velocity_y, ball.speed);
    let bw: i128 = ball.width as i128;
    let bh: i128 = ball.height as i128;
    if nx < 0 {
        Collision::LeftWall
    } else if nx + bw > WINDOW_WIDTH as i128 {
        Collision::RightWall
    } else if ny < 0 || ny + bh > WINDOW_HEIGHT as i128 {
        Collision::TopBottomWall
    } else {
        let x1: i128 = player1.position_x as i128;
        let y1: i128 = player1.position_y as i128;
        let inside_player_1 = nx > x1 && nx < x1 + player1.width as i128 && ny > y1 && ny < y1
            + player1.height as i128;
        let x2: i128 = player2.position_x as i128;
        let y2: i128 = player2.position_y as i128;
        let inside_player_2 = nx + bw > x2 && nx + bw < x2 + player2.width as i128 && ny > y2 && ny
            < y2 + player2.height as i128;
        if inside_player_1 || inside_player_2 {
            Collision::Paddle
        } else {
            Collision::Free
        }
    }
}

} // verus!

verus! {

/// Direction after a top or bottom bounce: `y` is reversed; a `roll` of 1
/// makes `x` half again as large, a roll of 2 does so to the reversed `y`;
/// then both components are reduced by `rem_unit`.
pub open spec fn bounced_velocity(vx: int, vy: int, roll: int) -> (int, int) {
    if roll == 1 {
        (rem_unit(three_halves(vx)), rem_unit(-vy))
    } else if roll == 2 {
        (rem_unit(vx), rem_unit(three_halves(-vy)))
    } else {
        (rem_unit(vx), rem_unit(-vy))
    }
}

/// `n` is the ball `b` after a tick whose outcome is `c`, with `roll` the
/// draw that a top or bottom bounce uses.
pub open spec fn ball_after(b: Ball, c: Collision, roll: int, n: Ball) -> bool {
    if c == Collision::Free {
        &&& n.position_x == next_x(b)
        &&& n.position_y == next_y(b)
        &&& n.velocity_x == b.velocity_x
        &&& n.velocity_y == b.velocity_y
        &&& n.speed == b.speed
        &&& n.width == b.width
        &&& n.height == b.height
        &&& n.history_pos_x@ == b.history_pos_x@.push(n.position_x)
        &&& n.history_pos_y@ == b.history_pos_y@.push(n.position_y)
    } else if c == Collision::TopBottomWall {
        &&& same_body(&b, &n)
        &&& (n.velocity_x as int, n.velocity_y as int) == bounced_velocity(
            b.velocity_x as int,
            b.velocity_y as int,
            roll,
        )
    } else {
        &&& same_body(&b, &n)
        &&& n.velocity_x == -b.velocity_x
        &&& n.velocity_y == b.velocity_y
    }
}

/// The paddle `p`, with one point more when `point` holds.
pub open spec fn scored(p: Player, point: bool) -> Player {
    if point {
        Player { score: (p.score + 1) as u32, ..p }
    } else {
        p
    }
}

/// Reverses the x-direction of the ball.
fn reverse_x(ball: &mut Ball)
    requires
        old(ball).wf(),
    ensures
        final(ball).wf(),
        same_body(old(ball), final(ball)),
        final(ball).velocity_x == -old(ball).velocity_x,
        final(ball).velocity_y == old(ball).velocity_y,
{
    let x0 = ball.get_velocity_x();
    ball.set_velocity_x(-x0);
}

/// One tick of the ball between the left paddle `player1` and the right
/// paddle `player2`, with `roll` standing for the draw from 1 to 10 that a
/// top or bottom bounce makes. Returns whether the round is over.
///
/// A ball leaving by the left wall gives the right paddle a point, one
/// leaving by the right wall gives the left paddle a point; both reverse the
/// ball's x-direction without moving it and end the round. A top or bottom
/// bounce reverses the y-direction, may amplify one component, and reduces
/// both; a paddle hit reverses the x-direction; neither moves the ball. A
/// free ball moves and records its new position in the trail.
pub fn ball_physics_with_roll(
    ball: &mut Ball,
    player1: &mut Player,
    player2: &mut Player,
    roll: i32,
) -> (round_over: bool)
    requires
        old(ball).wf(),
        old(player1).score < u32::MAX,
        old(player2).score < u32::MAX,
    ensures
        final(ball).wf(),
        ball_after(
            *old(ball),
            collision_of(*old(ball), *old(player1), *old(player2)),
            roll as int,
            *final(ball),
        ),
        round_over == (collision_of(*old(ball), *old(player1), *old(player2))
            == Collision::LeftWall || collision_of(*old(ball), *old(player1), *old(player2))
            == Collision::RightWall),
        *final(player1) == scored(
            *old(player1),
            collision_of(*old(ball), *old(player1), *old(player2)) == Collision::RightWall,
        ),
        *final(player2) == scored(
            *old(player2),
            collision_of(*old(ball), *old(player1), *old(player2)) == Collision::LeftWall,
        ),
        final(player1).score == old(player1).score + if collision_of(
            *old(ball),
            *old(player1),
            *old(player2),
        ) == Collision::RightWall {
            1int
        } else {
            0int
        },
        final(player2).score == old(player2).score + if collision_of(
            *old(ball),
            *old(player1),
            *old(player2),
        ) == Collision::LeftWall {
            1int
        } else {
            0int
        },
{
    let c = classify_collision(ball, player1, player2);
    match c {
        Collision::LeftWall => {
            reverse_x(ball);
            let s = player2.get_score();
            player2.set_score(s + 1);
            true
        },
        Collision::RightWall => {
            reverse_x(ball);
            let s = player1.get_score();
            player1.set_score(s + 1);
            true
        },
        Collision::TopBottomWall => {
            let y0 = ball.get_velocity_y();
            ball.set_velocity_y(-y0);
            let current_x = ball.get_velocity_x();
            let current_y = ball.get_velocity_y();
            if roll == 1 {
                let a = rem_unit_exec(three_halves_exec(current_x));
                ball.set_velocity_x(a as i32);
            } else if roll == 2 {
                let a = rem_unit_exec(three_halves_exec(current_y));
                ball.set_velocity_y(a as i32);
            }
            ball.normalize();
            proof {
                assert(rem_unit(rem_unit(current_x as int)) == rem_unit(current_x as int));
            }
            false
        },
        Collision::Paddle => {
            reverse_x(ball);
            false
        },
        Collision::Free => {
            let dx = axis_step(ball.velocity_x, ball.speed);
            let dy = axis_step(ball.velocity_y, ball.speed);
            let x_new = (ball.position_x as i128 + dx) as u32;
            let y_new = (ball.position_y as i128 + dy) as u32;
            ball.set_x(x_new);
            ball.set_y(y_new);
            ball.add_to_history_x(x_new);
            ball.add_to_history_y(y_new);
            false
        },
    }
}

/// `(nb, n1, n2, over)` is what a tick of ball `b` between paddles `p1`
/// and `p2` can leave, for some draw from 1 to 10 where a top or bottom
/// bounce uses one.
pub open spec fn tick_post(
    b: Ball,
    p1: Player,
    p2: Player,
    nb: Ball,
    n1: Player,
    n2: Player,
    over: bool,
) -> bool {
    let c = collision_of(b, p1, p2);
    &&& c != Collision::TopBottomWall ==> ball_after(b, c, 0, nb)
    &&& c == Collision::TopBottomWall ==> exists|roll: int|
        1 <= roll <= 10 && #[trigger] ball_after(b, Collision::TopBottomWall, roll, nb)
    &&& over == (c == Collision::LeftWall || c == Collision::RightWall)
    &&& n1 == scored(p1, c == Collision::RightWall)
    &&& n2 == scored(p2, c == Collision::LeftWall)
}

/// One tick of the ball, drawing the 1-in-10 amplification of a top or
/// bottom bounce at random. Returns whether the round is over.
pub fn ball_physics(
    ball: &mut Ball,
    player1: &mut Player,
    player2: &mut Player,
) -> (round_over: bool)
    requires
        old(ball).wf(),
        old(player1).score < u32::MAX,
        old(player2).score < u32::MAX,
    ensures
        final(ball).wf(),
        tick_post(
            *old(ball),
            *old(player1),
            *old(player2),
            *final(ball),
            *final(player1),
            *final(player2),
            round_over,
        ),
{
    let c = classify_collision(ball, player1, player2);
    let roll: i32 = if c == Collision::TopBottomWall {
        random_between(1, 10)
    } else {
        0
    };
    ball_physics_with_roll(ball, player1, player2, roll)
}

} // verus!

verus! {

/// The commands held in one frame: the four paddle keys, the reset key and
/// the key that switches the right paddle between its keys and the bot.
#[derive(Clone, Copy, Debug, PartialEq, Eq, Structural)]
pub struct Controls {
    pub player1_up: bool,
    pub player1_down: bool,
    pub player2_up: bool,
    pub player2_down: bool,
    pub reset: bool,
    pub toggle_bot: bool,
}

/// The paddle `p` after the up key (when `up`) and then the down key (when
/// `down`) have been applied.
pub open spec fn after_keys(p: Player, up: bool, down: bool) -> Player {
    let a = if up {
        moved(p, Direction::Up)
    } else {
        p
    };
    if down {
        moved(a, Direction::Down)
    } else {
        a
    }
}

/// The move a bot makes with paddle `p` toward a ball at height `ball_y`:
/// up when the ball is above the paddle's centre, down when below, none
/// when level with it.
pub open spec fn bot_move(ball_y: int, p: Player) -> Option<Direction> {
    let centre = p.position_y + p.height / 2;
    if ball_y < centre {
        Some(Direction::Up)
    } else if ball_y > centre {
        Some(Direction::Down)
    } else {
        None
    }
}

pub open spec fn after_bot(p: Player, ball_y: int) -> Player {
    match bot_move(ball_y, p) {
        Some(d) => moved(p, d),
        None => p,
    }
}

/// Decides the bot's move for paddle `player` toward `ball`.
pub fn bot_direction(ball: &Ball, player: &Player) -> (d: Option<Direction>)
    ensures
        d == bot_move(ball.position_y as int, *player),
{
    let centre: u64 = player.get_y() as u64 + (player.get_height() / 2) as u64;
    let by: u64 = ball.get_y() as u64;
    if by < centre {
        Some(Direction::Up)
    } else if by > centre {
        Some(Direction::Down)
    } else {
        None
    }
}

/// Moves the paddle by the two keys that control it.
fn apply_keys(player: &mut Player, up: bool, down: bool)
    requires
        old(player).height <= WINDOW_HEIGHT,
    ensures
        *final(player) == after_keys(*old(player), up, down),
{
    if up {
        move_if_valid(player, Direction::Up);
    }
    if down {
        move_if_valid(player, Direction::Down);
    }
}

/// Moves the left paddle by its keys, and the right paddle by its keys or,
/// when `play_against_bot` holds, toward the ball.
pub fn handle_input(
    controls: &Controls,
    player1: &mut Player,
    player2: &mut Player,
    ball: &Ball,
    play_against_bot: bool,
)
    requires
        old(player1).height <= WINDOW_HEIGHT,
        old(player2).height <= WINDOW_HEIGHT,
    ensures
        *final(player1) == after_keys(*old(player1), controls.player1_up, controls.player1_down),
        *final(player2) == if play_against_bot {
            after_bot(*old(player2), ball.position_y as int)
        } else {
            after_keys(*old(player2), controls.player2_up, controls.player2_down)
        },
{
    apply_keys(player1, controls.player1_up, controls.player1_down);
    if !play_against_bot {
        apply_keys(player2, controls.player2_up, controls.player2_down);
    } else {
        match bot_direction(ball, player2) {
            Some(d) => move_if_valid(player2, d),
            None => {},
        }
    }
}

/// The paddle `p` moved to the vertical centre of the field.
pub open spec fn recentred(p: Player) -> Player {
    Player { position_y: (WINDOW_HEIGHT / 2) as u32, ..p }
}

/// `n` is the ball `b` after a reset: at the centre of the field, with a
/// direction whose components lie strictly between `-UNIT` and `UNIT`, and
/// with its speed, size and trail kept.
pub open spec fn ball_reset(b: Ball, n: Ball) -> bool {
    &&& n.position_x == WINDOW_WIDTH / 2
    &&& n.position_y == WINDOW_HEIGHT / 2
    &&& -UNIT < n.velocity_x < UNIT
    &&& -UNIT < n.velocity_y < UNIT
    &&& n.speed == b.speed
    &&& n.width == b.width
    &&& n.height == b.height
    &&& n.history_pos_x@ == b.history_pos_x@
    &&& n.history_pos_y@ == b.history_pos_y@
}

/// Starts a new round: both paddles to the vertical centre, the ball to the
/// centre with a fresh random direction. Scores and the trail are kept.
/// Returns `false`, the round being not over.
pub fn initialise_game(
    player1: &mut Player,
    player2: &mut Player,
    ball: &mut Ball,
) -> (round_over: bool)
    requires
        old(ball).wf(),
    ensures
        !round_over,
        *final(player1) == recentred(*old(player1)),
        *final(player2) == recentred(*old(player2)),
        ball_reset(*old(ball), *final(ball)),
        final(ball).wf(),
{
    player1.init((WINDOW_HEIGHT / 2) as u32);
    player2.init((WINDOW_HEIGHT / 2) as u32);
    ball.init();
    ball.normalize();
    false
}

/// Each tick has exactly one outcome, taken in priority order: the left
/// wall, the right wall, the top or bottom wall, a paddle, and else free
/// flight.
pub proof fn lemma_collision_priority(b: Ball, p1: Player, p2: Player)
    ensures
        collision_of(b, p1, p2) == Collision::LeftWall <==> hits_left_wall(b),
        collision_of(b, p1, p2) == Collision::RightWall <==> !hits_left_wall(b)
            && hits_right_wall(b),
        collision_of(b, p1, p2) == Collision::TopBottomWall <==> !hits_left_wall(b)
            && !hits_right_wall(b) && hits_top_or_bottom(b),
        collision_of(b, p1, p2) == Collision::Paddle <==> !hits_left_wall(b) && !hits_right_wall(
            b,
        ) && !hits_top_or_bottom(b) && (overlaps_left_paddle(b, p1) || overlaps_right_paddle(
            b,
            p2,
        )),
        collision_of(b, p1, p2) == Collision::Free <==> !hits_left_wall(b) && !hits_right_wall(b)
            && !hits_top_or_bottom(b) && !overlaps_left_paddle(b, p1) && !overlaps_right_paddle(
            b,
            p2,
        ),
{
}

/// Scoring: in any tick, leaving by the left wall gives the right paddle
/// exactly one point, leaving by the right wall gives the left paddle
/// exactly one point, no other outcome changes a score, and neither paddle
/// moves.
pub proof fn lemma_scoring(
    b: Ball,
    p1: Player,
    p2: Player,
    nb: Ball,
    n1: Player,
    n2: Player,
    over: bool,
)
    requires
        p1.score < u32::MAX,
        p2.score < u32::MAX,
        tick_post(b, p1, p2, nb, n1, n2, over),
    ensures
        collision_of(b, p1, p2) == Collision::LeftWall ==> n2.score == p2.score + 1 && n1.score
            == p1.score,
        collision_of(b, p1, p2) == Collision::RightWall ==> n1.score == p1.score + 1 && n2.score
            == p2.score,
        collision_of(b, p1, p2) != Collision::LeftWall && collision_of(b, p1, p2)
            != Collision::RightWall ==> n1.score == p1.score && n2.score == p2.score,
        n1.position_x == p1.position_x && n1.position_y == p1.position_y,
        n2.position_x == p2.position_x && n2.position_y == p2.position_y,
{
}

/// Two resets in a row leave the paddles and the ball at the same centred
/// positions each time; only the ball's direction is drawn anew.
pub proof fn lemma_reset_twice(p: Player, b0: Ball, b1: Ball, b2: Ball)
    requires
        ball_reset(b0, b1),
        ball_reset(b1, b2),
    ensures
        recentred(recentred(p)) == recentred(p),
        recentred(p).position_y == WINDOW_HEIGHT / 2,
        b1.position_x == b2.position_x == WINDOW_WIDTH / 2,
        b1.position_y == b2.position_y == WINDOW_HEIGHT / 2,
        b2.history_pos_x@ == b0.history_pos_x@,
        b2.history_pos_y@ == b0.history_pos_y@,
{
}

/// The trail never shrinks while playing: a tick adds exactly one point when
/// the ball flies freely and none otherwise, the old trail stays its prefix,
/// and a reset keeps it whole.
pub proof fn lemma_trail_grows(b0: Ball, c: Collision, roll: int, b1: Ball, b2: Ball)
    requires
        ball_after(b0, c, roll, b1),
    ensures
        b1.history_pos_x@.len() == b0.history_pos_x@.len() + if c == Collision::Free {
            1int
        } else {
            0int
        },
        b1.history_pos_y@.len() == b0.history_pos_y@.len() + if c == Collision::Free {
            1int
        } else {
            0int
        },
        b1.history_pos_x@.subrange(0, b0.history_pos_x@.len() as int) == b0.history_pos_x@,
        b1.history_pos_y@.subrange(0, b0.history_pos_y@.len() as int) == b0.history_pos_y@,
        ball_reset(b1, b2) ==> b2.history_pos_x@ == b1.history_pos_x@ && b2.history_pos_y@
            == b1.history_pos_y@,
{
    assert(b1.history_pos_x@.subrange(0, b0.history_pos_x@.len() as int) =~= b0.history_pos_x@);
    assert(b1.history_pos_y@.subrange(0, b0.history_pos_y@.len() as int) =~= b0.history_pos_y@);
}

} // verus!
