//! Drawing the game into a row-major frame buffer of `WINDOW_WIDTH *
//! WINDOW_HEIGHT` colours, pixel `(x, y)` at index `x + WINDOW_WIDTH * y`.
use vstd::prelude::*;
use vstd::arithmetic::div_mod::{lemma_fundamental_div_mod, lemma_fundamental_div_mod_converse};
use crate::constants::{BLACK, RED, WHITE, WINDOW_HEIGHT, WINDOW_WIDTH};
use crate::objects::{Ball, Player};

verus! {

/// Column of buffer index `i`.
pub open spec fn col_of(i: int) -> int {
    i % (WINDOW_WIDTH as int)
}

/// Row of buffer index `i`.
pub open spec fn row_of(i: int) -> int {
    i / (WINDOW_WIDTH as int)
}

/// Buffer index `i` lies in the `w` by `h` rectangle whose top-left pixel
/// is `(x, y)`.
pub open spec fn in_rect(i: int, x: int, y: int, w: int, h: int) -> bool {
    &&& x <= col_of(i) < x + w
    &&& y <= row_of(i) < y + h
}

/// `buf` with the rectangle of top-left `(x, y)` and size `w` by `h` filled
/// with `color`.
pub open spec fn with_rect(buf: Seq<u32>, x: int, y: int, w: int, h: int, color: u32) -> Seq<
    u32,
> {
    Seq::new(buf.len(), |i: int| if in_rect(i, x, y, w, h) { color } else { buf[i] })
}

/// A buffer of `n` cells of the one colour `color`.
pub open spec fn solid(n: nat, color: u32) -> Seq<u32> {
    Seq::new(n, |i: int| color)
}

/// The pixel `(col, row)` of the field has index `col + WINDOW_WIDTH * row`.
proof fn lemma_pixel_index(col: int, row: int)
    requires
        0 <= col < WINDOW_WIDTH,
        0 <= row,
    ensures
        col_of(col + WINDOW_WIDTH * row) == col,
        row_of(col + WINDOW_WIDTH * row) == row,
{
    lemma_fundamental_div_mod_converse(col + WINDOW_WIDTH * row, WINDOW_WIDTH as int, row, col);
}

/// Sets pixel `(x, y)` to `color`.
pub fn draw_pixel(buffer: &mut Vec<u32>, x: u32, y: u32, color: u32)
    requires
        x + WINDOW_WIDTH * y < old(buffer)@.len(),
    ensures
        final(buffer)@ == old(buffer)@.update(x + WINDOW_WIDTH * y, color),
{
    let n = buffer.len();
    assert(WINDOW_WIDTH * y <= x + WINDOW_WIDTH * y < n);
    let pixel: usize = x as usize + WINDOW_WIDTH * (y as usize);
    buffer[pixel] = color;
}

/// Fills the `w` by `h` rectangle whose top-left pixel is `(x, y)`.
fn fill_rect(buffer: &mut Vec<u32>, x: u32, y: u32, w: u32, h: u32, color: u32)
    requires
        old(buffer)@.len() == WINDOW_WIDTH * WINDOW_HEIGHT,
        x + w <= WINDOW_WIDTH,
        y + h <= WINDOW_HEIGHT,
    ensures
        final(buffer)@ == with_rect(old(buffer)@, x as int, y as int, w as int, h as int, color),
{
    let ghost start = buffer@;
    proof {
        assert(buffer@ =~= with_rect(start, x as int, y as int, 0, h as int, color));
    }
    let mut cx: u32 = 0;
    while cx < w
        invariant
            cx <= w,
            x + w <= WINDOW_WIDTH,
            y + h <= WINDOW_HEIGHT,
            start.len() == WINDOW_WIDTH * WINDOW_HEIGHT,
            buffer@ == with_rect(start, x as int, y as int, cx as int, h as int, color),
        decreases w - cx,
    {
        let ghost columns = buffer@;
        proof {
            assert(buffer@ =~= with_rect(columns, x + cx, y as int, 1, 0, color));
        }
        let mut ry: u32 = 0;
        while ry < h
            invariant
                cx < w,
                ry <= h,
                x + w <= WINDOW_WIDTH,
                y + h <= WINDOW_HEIGHT,
                columns.len() == WINDOW_WIDTH * WINDOW_HEIGHT,
                buffer@ == with_rect(columns, x + cx, y as int, 1, ry as int, color),
            decreases h - ry,
        {
            let ghost before = buffer@;
            proof {
                let idx = x + cx + WINDOW_WIDTH * (y + ry);
                lemma_pixel_index(x + cx, y + ry);
                assert(idx < WINDOW_WIDTH * WINDOW_HEIGHT) by (nonlinear_arith)
                    requires
                        idx == x + cx + WINDOW_WIDTH * (y + ry),
                        x + cx < WINDOW_WIDTH,
                        y + ry < WINDOW_HEIGHT,
                ;
            }
            draw_pixel(buffer, x + cx, y + ry, color);
            proof {
                assert forall|i: int| 0 <= i < buffer@.len() implies buffer@[i] == with_rect(
                    columns,
                    x + cx,
                    y as int,
                    1,
                    ry + 1,
                    color,
                )[i] by {
                    lemma_fundamental_div_mod(i, WINDOW_WIDTH as int);
                }
                assert(buffer@ =~= with_rect(columns, x + cx, y as int, 1, ry + 1, color));
            }
            ry = ry + 1;
        }
        proof {
            assert(buffer@ =~= with_rect(start, x as int, y as int, cx + 1, h as int, color));
        }
        cx = cx + 1;
    }
}

/// Sets every pixel to the background colour.
pub fn clear_buffer(buffer: &mut Vec<u32>)
    ensures
        final(buffer)@ == solid(old(buffer)@.len(), BLACK),
{
    fill_all(buffer, BLACK);
}

/// Sets every pixel to `color`.
fn fill_all(buffer: &mut Vec<u32>, color: u32)
    ensures
        final(buffer)@ == solid(old(buffer)@.len(), color),
{
    let n = buffer.len();
    let mut i: usize = 0;
    while i < n
        invariant
            i <= n,
            n == buffer@.len(),
            forall|k: int| 0 <= k < i ==> buffer@[k] == color,
        decreases n - i,
    {
        buffer[i] = color;
        i = i + 1;
    }
    assert(buffer@ =~= solid(n as nat, color));
}

} // verus!

verus! {

/// The paddle `p` lies inside the field.
pub open spec fn paddle_in_field(p: Player) -> bool {
    p.position_x + p.width <= WINDOW_WIDTH && p.position_y + p.height <= WINDOW_HEIGHT
}

/// The ball `b` lies inside the field.
pub open spec fn ball_in_field(b: Ball) -> bool {
    b.position_x + b.width <= WINDOW_WIDTH && b.position_y + b.height <= WINDOW_HEIGHT
}

/// Both score bars fit in the field's height.
pub open spec fn scores_fit(p1: Player, p2: Player) -> bool {
    p1.score * 10 <= WINDOW_HEIGHT && p2.score * 10 <= WINDOW_HEIGHT
}

/// Every point of the ball's trail is a pixel of the field.
pub open spec fn trail_in_field(b: Ball) -> bool {
    &&& b.history_pos_x@.len() == b.history_pos_y@.len()
    &&& forall|i: int|
        0 <= i < b.history_pos_x@.len() ==> #[trigger] b.history_pos_x@[i] < WINDOW_WIDTH
            && b.history_pos_y@[i] < WINDOW_HEIGHT
}

/// Colour of the ball in frame `loop_counter`: red shifted by the counter,
/// modulo 2^32.
pub open spec fn ball_color(loop_counter: u32) -> u32 {
    ((RED + loop_counter) % 0x1_0000_0000) as u32
}

/// Colour of the trail point with index `i`: red shifted by `i * 0x100`,
/// modulo 2^32.
pub open spec fn trail_color(i: int) -> u32 {
    ((RED + (i % 0x100_0000) * 0x100) % 0x1_0000_0000) as u32
}

pub open spec fn paddle_drawn(buf: Seq<u32>, p: Player) -> Seq<u32> {
    with_rect(buf, p.position_x as int, p.position_y as int, p.width as int, p.height as int, WHITE)
}

pub open spec fn ball_drawn(buf: Seq<u32>, b: Ball, loop_counter: u32) -> Seq<u32> {
    with_rect(
        buf,
        b.position_x as int,
        b.position_y as int,
        b.width as int,
        b.height as int,
        ball_color(loop_counter),
    )
}

/// The two score bars, ten pixels wide either side of the midline, from the
/// top row down: left of it `10 * p2.score` rows, right of it
/// `10 * p1.score` rows.
pub open spec fn score_drawn(buf: Seq<u32>, p1: Player, p2: Player) -> Seq<u32> {
    with_rect(
        with_rect(buf, WINDOW_WIDTH / 2 - 10, 0, 10, p2.score * 10, WHITE),
        WINDOW_WIDTH / 2 + 1,
        0,
        10,
        p1.score * 10,
        WHITE,
    )
}

/// `buf` with the first `n` trail points drawn, in order, point `i` as one
/// pixel of `trail_color(i)`.
pub open spec fn trail_drawn(buf: Seq<u32>, xs: Seq<u32>, ys: Seq<u32>, n: nat) -> Seq<u32>
    decreases n,
{
    if n == 0 {
        buf
    } else {
        trail_drawn(buf, xs, ys, (n - 1) as nat).update(
            xs[n - 1] + WINDOW_WIDTH * ys[n - 1],
            trail_color(n - 1),
        )
    }
}

/// The frame of a round in play: paddles, ball, score bars and trail, in
/// that order, drawn over `buf`.
pub open spec fn frame_drawn(
    buf: Seq<u32>,
    p1: Player,
    p2: Player,
    b: Ball,
    loop_counter: u32,
) -> Seq<u32> {
    trail_drawn(
        score_drawn(ball_drawn(paddle_drawn(paddle_drawn(buf, p1), p2), b, loop_counter), p1, p2),
        b.history_pos_x@,
        b.history_pos_y@,
        b.history_pos_x@.len(),
    )
}

/// Frame `loop_counter` of a round that is over flashes: it is one of the
/// six frames that end each period of 24.
pub open spec fn flashes(loop_counter: int) -> bool {
    loop_counter % 24 == 0 || (loop_counter + 1) % 24 == 0 || (loop_counter + 2) % 24 == 0 || (
    loop_counter + 3) % 24 == 0 || (loop_counter + 4) % 24 == 0 || (loop_counter + 5) % 24 == 0
}

/// Draws the paddle as a solid white rectangle.
pub fn draw_player(buffer: &mut Vec<u32>, player: &Player, loop_counter: u32)
    requires
        old(buffer)@.len() == WINDOW_WIDTH * WINDOW_HEIGHT,
        paddle_in_field(*player),
    ensures
        final(buffer)@ == paddle_drawn(old(buffer)@, *player),
{
    fill_rect(
        buffer,
        player.get_x(),
        player.get_y(),
        player.get_width(),
        player.get_height(),
        WHITE,
    );
}

/// Draws the ball as a solid rectangle whose colour moves with the frame
/// counter.
pub fn draw_ball(buffer: &mut Vec<u32>, ball: &Ball, loop_counter: u32)
    requires
        old(buffer)@.len() == WINDOW_WIDTH * WINDOW_HEIGHT,
        ball_in_field(*ball),
    ensures
        final(buffer)@ == ball_drawn(old(buffer)@, *ball, loop_counter),
{
    let color: u64 = (RED as u64 + loop_counter as u64) % 0x1_0000_0000;
    fill_rect(
        buffer,
        ball.get_x(),
        ball.get_y(),
        ball.get_width(),
        ball.get_height(),
        color as u32,
    );
}

/// Draws the two score bars either side of the midline.
pub fn draw_score(buffer: &mut Vec<u32>, player1: &Player, player2: &Player)
    requires
        old(buffer)@.len() == WINDOW_WIDTH * WINDOW_HEIGHT,
        scores_fit(*player1, *player2),
    ensures
        final(buffer)@ == score_drawn(old(buffer)@, *player1, *player2),
{
    let left_rows = player2.get_score() * 10;
    fill_rect(buffer, WINDOW_WIDTH as u32 / 2 - 10, 0, 10, left_rows, WHITE);
    let right_rows = player1.get_score() * 10;
    fill_rect(buffer, WINDOW_WIDTH as u32 / 2 + 1, 0, 10, right_rows, WHITE);
}

/// Draws each trail point as one pixel, later points in shifted colours.
pub fn draw_trace(buffer: &mut Vec<u32>, ball: &Ball)
    requires
        old(buffer)@.len() == WINDOW_WIDTH * WINDOW_HEIGHT,
        trail_in_field(*ball),
    ensures
        final(buffer)@ == trail_drawn(
            old(buffer)@,
            ball.history_pos_x@,
            ball.history_pos_y@,
            ball.history_pos_x@.len(),
        ),
{
    let ghost start = buffer@;
    let n = ball.history_pos_x.len();
    let mut i: usize = 0;
    while i < n
        invariant
            i <= n,
            n == ball.history_pos_x@.len(),
            trail_in_field(*ball),
            buffer@.len() == WINDOW_WIDTH * WINDOW_HEIGHT,
            buffer@ == trail_drawn(start, ball.history_pos_x@, ball.history_pos_y@, i as nat),
        decreases n - i,
    {
        let px = ball.history_pos_x[i];
        let py = ball.history_pos_y[i];
        let k: u64 = (i as u64) % 0x100_0000;
        let color: u64 = (RED as u64 + k * 0x100) % 0x1_0000_0000;
        proof {
            assert(px < WINDOW_WIDTH && py < WINDOW_HEIGHT);
            assert(px + WINDOW_WIDTH * py < WINDOW_WIDTH * WINDOW_HEIGHT) by (nonlinear_arith)
                requires
                    px < WINDOW_WIDTH,
                    py < WINDOW_HEIGHT,
            ;
        }
        draw_pixel(buffer, px, py, color as u32);
        i = i + 1;
    }
}

/// Draws a frame of a round in play over the buffer.
pub fn calc_image(
    buffer: &mut Vec<u32>,
    player1: &Player,
    player2: &Player,
    ball: &Ball,
    loop_counter: u32,
)
    requires
        old(buffer)@.len() == WINDOW_WIDTH * WINDOW_HEIGHT,
        paddle_in_field(*player1),
        paddle_in_field(*player2),
        ball_in_field(*ball),
        scores_fit(*player1, *player2),
        trail_in_field(*ball),
    ensures
        final(buffer)@ == frame_drawn(old(buffer)@, *player1, *player2, *ball, loop_counter),
{
    draw_player(buffer, player1, loop_counter);
    draw_player(buffer, player2, loop_counter);
    draw_ball(buffer, ball, loop_counter);
    draw_score(buffer, player1, player2);
    draw_trace(buffer, ball);
}

/// Draws the screen of a round that is over: the ball on a blank field, or
/// in flashing frames the whole field in red.
pub fn draw_game_over_screen(buffer: &mut Vec<u32>, ball: &Ball, loop_counter: u32)
    requires
        old(buffer)@.len() == WINDOW_WIDTH * WINDOW_HEIGHT,
        ball_in_field(*ball),
    ensures
        final(buffer)@ == if flashes(loop_counter as int) {
            solid(old(buffer)@.len(), RED)
        } else {
            ball_drawn(solid(old(buffer)@.len(), BLACK), *ball, loop_counter)
        },
{
    clear_buffer(buffer);
    draw_ball(buffer, ball, loop_counter);
    let c: u64 = loop_counter as u64;
    if c % 24 == 0 || (c + 1) % 24 == 0 || (c + 2) % 24 == 0 || (c + 3) % 24 == 0 || (c + 4) % 24
        == 0 || (c + 5) % 24 == 0 {
        fill_all(buffer, RED);
    }
}

} // verus!
