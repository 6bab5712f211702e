//! The rules of Pong: what a turn does, and what the picture shows.

use crate::pong::{
    ball_fill, black_color, dash_count, dashes, digit_fills, follow_ball, game_after, game_fills,
    game_pixel, lit_segments, paddle_fill, pieces, player_moved, segment_fill, segment_lit, Game,
    Paddle,
};
use crate::renderer;
use crate::renderer::{covered, Fill};
use vstd::prelude::*;

verus! {

/// The key W moves the player's paddle up by ten pixels, and S moves it down by ten pixels, but
/// neither moves it off the screen; every other key, and none, leaves it where it is.
pub proof fn keys_move_the_paddle(paddle: Paddle, last: Option<u8>, height: int)
    requires
        paddle.height <= height <= usize::MAX,
        paddle.y + 10 <= usize::MAX,
    ensures
        ({
            let after = player_moved(paddle, last, height);
            &&& last == Some(0x11u8) && paddle.y >= 10 ==> after.y == paddle.y - 10
            &&& last == Some(0x11u8) && paddle.y < 10 ==> after.y == 0
            &&& last == Some(0x1fu8) && paddle.y + 10 + paddle.height <= height ==> after.y
                == paddle.y + 10
            &&& last == Some(0x1fu8) && paddle.y + 10 + paddle.height > height ==> after.y
                + paddle.height == height
            &&& last != Some(0x11u8) && last != Some(0x1fu8) ==> after.y == paddle.y
            &&& after.x == paddle.x
            &&& after.width == paddle.width
            &&& after.height == paddle.height
            &&& paddle.y + paddle.height <= height ==> after.y + after.height <= height
        }),
{
}

/// A turn moves the paddles: the player's by the key, and the machine's to where it was sent.
/// Nothing else of them changes.
pub proof fn turn_moves_the_paddles(
    game: Game,
    last: Option<u8>,
    paddle2_y: usize,
    x: int,
    y: int,
    width: int,
    height: int,
)
    ensures
        ({
            let after = game_after(game, last, paddle2_y, x, y, width, height);
            &&& after.paddle1 == player_moved(game.paddle1, last, height)
            &&& after.paddle2.y == paddle2_y
            &&& after.paddle2.x == game.paddle2.x
            &&& after.paddle2.width == game.paddle2.width
            &&& after.paddle2.height == game.paddle2.height
        }),
{
}

/// While the ball is not out, it goes where its flight has taken it. If it has come into the
/// right paddle it flies to the left, and else if it has come into the left paddle it flies to
/// the right, at the same speed; otherwise it flies on as before. If it has come to the upper
/// or the lower edge it turns round vertically, and otherwise it does not.
pub proof fn ball_bounces(
    game: Game,
    last: Option<u8>,
    paddle2_y: usize,
    x: int,
    y: int,
    width: int,
    height: int,
)
    requires
        0 < x,
        0 <= y <= usize::MAX,
        x + game.ball.size < width <= usize::MAX,
        game.ball.vx > i32::MIN,
        game.ball.vy > i32::MIN,
    ensures
        ({
            let after = game_after(game, last, paddle2_y, x, y, width, height);
            let left = after.paddle1;
            let right = after.paddle2;
            let size = game.ball.size;
            let in_left = x <= left.x + left.width && y + size >= left.y && y <= left.y
                + left.height;
            let in_right = x + size >= right.x && y + size >= right.y && y <= right.y
                + right.height;
            &&& after.ball.x == x && after.ball.y == y && after.ball.size == size
            &&& after.ball.vx == game.ball.vx || after.ball.vx == -game.ball.vx
            &&& in_right ==> after.ball.vx <= 0
            &&& in_left && !in_right ==> after.ball.vx >= 0
            &&& !in_left && !in_right ==> after.ball.vx == game.ball.vx
            &&& y == 0 || y + size >= height ==> after.ball.vy == -game.ball.vy
            &&& y > 0 && y + size < height ==> after.ball.vy == game.ball.vy
            &&& after.score1 == game.score1 && after.score2 == game.score2
        }),
{
}

/// A ball that is out on one side is a point for the other side. It is served from the middle
/// of the screen at full speed, toward the side that has won the point.
pub proof fn ball_is_out(
    game: Game,
    last: Option<u8>,
    paddle2_y: usize,
    x: int,
    y: int,
    width: int,
    height: int,
)
    requires
        0 <= x,
        0 <= width <= usize::MAX,
        0 <= height <= usize::MAX,
        game.score1 < usize::MAX,
        game.score2 < usize::MAX,
    ensures
        ({
            let after = game_after(game, last, paddle2_y, x, y, width, height);
            let out_on_the_left = x == 0;
            let out_on_the_right = x > 0 && x + game.ball.size >= width;
            &&& out_on_the_left ==> after.score2 == game.score2 + 1 && after.score1 == game.score1
                && after.ball.vx == 800
            &&& out_on_the_right ==> after.score1 == game.score1 + 1 && after.score2
                == game.score2 && after.ball.vx == -800
            &&& out_on_the_left || out_on_the_right ==> after.ball.x == width / 2 && after.ball.y
                == height / 2 && after.ball.vy == 600 && after.ball.size == game.ball.size
            &&& !out_on_the_left && !out_on_the_right ==> after.score1 == game.score1
                && after.score2 == game.score2
        }),
{
}

/// The machine's paddle goes where its speed takes it, but not off the lower edge.
pub proof fn machine_goes_as_far_as_it_can(
    paddle: Paddle,
    below: bool,
    flown: usize,
    height: usize,
    y: usize,
)
    requires
        paddle.height <= height,
        call_ensures(follow_ball, (&paddle, below, flown, height), y),
    ensures
        !below ==> y == flown,
        below && flown + paddle.height <= height ==> y == flown,
        below && flown + paddle.height > height ==> y + paddle.height == height,
{
}

/// A new game: the paddles stand at the middle of the height, 20 pixels from their edges, the
/// ball lies at the middle of the screen and flies to the right and down, and nobody has a
/// point.
pub proof fn new_game_is_laid_out(width: usize, height: usize, game: Game)
    requires
        30 <= width,
        60 <= height,
        call_ensures(Game::new, (width, height), game),
    ensures
        game.paddle1.x == 20,
        game.paddle2.x + game.paddle2.width + 20 == width,
        game.paddle1.y + 30 == height as int / 2,
        game.paddle2.y == game.paddle1.y,
        game.paddle1.width == 10 && game.paddle2.width == 10,
        game.paddle1.height == 60 && game.paddle2.height == 60,
        game.ball.x == width as int / 2,
        game.ball.y == height as int / 2,
        game.ball.size == 10,
        game.ball.vx == 800,
        game.ball.vy == 600,
        game.score1 == 0,
        game.score2 == 0,
{
}

/// The segments that each digit lights, counted from the top: top, upper left, upper right,
/// middle, lower left, lower right, bottom.
pub proof fn digits_are_readable(segment: int)
    requires
        0 <= segment < 7,
    ensures
        segment_lit(0, segment) <==> segment != 3,
        segment_lit(1, segment) <==> segment == 2 || segment == 5,
        segment_lit(2, segment) <==> segment != 1 && segment != 5,
        segment_lit(3, segment) <==> segment != 1 && segment != 4,
        segment_lit(4, segment) <==> segment == 1 || segment == 2 || segment == 3 || segment == 5,
        segment_lit(5, segment) <==> segment != 2 && segment != 4,
        segment_lit(6, segment) <==> segment != 2,
        segment_lit(7, segment) <==> segment == 0 || segment == 2 || segment == 5,
        segment_lit(8, segment),
        segment_lit(9, segment) <==> segment != 4,
{
}

/// Where the segments lie: the one at the top is 12 pixels wide and 2 high, the middle and the
/// bottom lie 14 and 28 pixels below it; the upper left one is 2 pixels wide and 12 high, the
/// others of its shape lie 14 pixels to the right of it, 14 below it, or both.
pub proof fn segments_make_a_digit(x: int, y: int)
    ensures
        ({
            let top = segment_fill(0, x, y);
            let side = segment_fill(1, x, y);
            &&& top.x == x + 2 && top.y == y && top.w == 12 && top.h == 2
            &&& segment_fill(3, x, y) == (Fill { y: top.y + 14, ..top })
            &&& segment_fill(6, x, y) == (Fill { y: top.y + 28, ..top })
            &&& side.x == x && side.y == y + 2 && side.w == 2 && side.h == 12
            &&& segment_fill(2, x, y) == (Fill { x: side.x + 14, ..side })
            &&& segment_fill(4, x, y) == (Fill { y: side.y + 14, ..side })
            &&& segment_fill(5, x, y) == (Fill { x: side.x + 14, y: side.y + 14, ..side })
            &&& forall|c: int| 0 <= c < 4 ==> #[trigger] top.color[c] == 255 && side.color[c]
                == 255
        }),
{
}

/// A digit covers what its lit segments cover; what is no digit is shown as 9.
pub proof fn digit_covers_its_segments(digit: int, x: int, y: int, px: int, py: int)
    requires
        0 <= digit,
    ensures
        covered(digit_fills(digit, x, y), px, py) <==> exists|segment: int|
            0 <= segment < 7 && segment_lit(
                if digit <= 9 {
                    digit
                } else {
                    9
                },
                segment,
            ) && (#[trigger] segment_fill(segment, x, y)).covers(px, py),
{
    segments_cover(renderer::smaller(digit, 9), x, y, 7, px, py);
}

/// The same of the first segments.
proof fn segments_cover(digit: int, x: int, y: int, count: int, px: int, py: int)
    requires
        0 <= count,
    ensures
        covered(lit_segments(digit, x, y, count), px, py) <==> exists|segment: int|
            0 <= segment < count && segment_lit(digit, segment) && (#[trigger] segment_fill(
                segment,
                x,
                y,
            )).covers(px, py),
    decreases count,
{
    let all = lit_segments(digit, x, y, count);
    if count > 0 {
        let before = lit_segments(digit, x, y, count - 1);
        let last = segment_fill(count - 1, x, y);
        segments_cover(digit, x, y, count - 1, px, py);
        if segment_lit(digit, count - 1) {
            covered_concat(before, seq![last], px, py);
            assert(all =~= before + seq![last]);
            covered_one(last, px, py);
        }
    }
}

/// What two lists of rectangles cover.
proof fn covered_concat(a: Seq<Fill>, b: Seq<Fill>, px: int, py: int)
    ensures
        covered(a + b, px, py) <==> covered(a, px, py) || covered(b, px, py),
{
    let all = a + b;
    if covered(a, px, py) {
        let i = choose|i: int| 0 <= i < a.len() && (#[trigger] a[i]).covers(px, py);
        assert(all[i] == a[i]);
    }
    if covered(b, px, py) {
        let i = choose|i: int| 0 <= i < b.len() && (#[trigger] b[i]).covers(px, py);
        assert(all[a.len() + i] == b[i]);
    }
    if covered(all, px, py) {
        let i = choose|i: int| 0 <= i < all.len() && (#[trigger] all[i]).covers(px, py);
        if i < a.len() {
            assert(a[i] == all[i]);
        } else {
            assert(b[i - a.len()] == all[i]);
        }
    }
}

/// What one rectangle covers.
proof fn covered_one(fill: Fill, px: int, py: int)
    ensures
        covered(seq![fill], px, py) <==> fill.covers(px, py),
{
    assert(seq![fill][0] == fill);
}

/// The center line is two pixels wide and dashed: ten rows with it, ten rows without.
pub proof fn center_line_is_dashed(width: int, height: int, px: int, py: int)
    requires
        0 <= py < height,
    ensures
        covered(dashes(width, dash_count(height)), px, py) <==> width / 2 - 1 <= px <= width / 2
            && py % 20 < 10,
{
    let lines = dashes(width, dash_count(height));
    let k = py / 20;
    if width / 2 - 1 <= px <= width / 2 && py % 20 < 10 {
        assert(0 <= k < lines.len());
        assert(lines[k].covers(px, py));
    }
    if covered(lines, px, py) {
        let i = choose|i: int| 0 <= i < lines.len() && (#[trigger] lines[i]).covers(px, py);
        assert(20 * i <= py < 20 * i + 10);
    }
}

/// What the picture of a game shows at a pixel: white where the center line, the ball, a paddle
/// or a digit is, and black everywhere else. The digits are the last ones of the scores, the
/// left player's on the left.
pub proof fn picture_shows_the_game(
    game: Game,
    buf: Seq<u8>,
    width: int,
    height: int,
    stride: int,
    px: int,
    py: int,
    channel: int,
)
    requires
        32 <= width,
        4 * width <= stride,
        stride % 4 == 0,
        stride * height <= buf.len(),
        0 <= px < width,
        0 <= py < height,
        0 <= channel < 4,
    ensures
        ({
            let ball = game.ball;
            let left = game.paddle1;
            let right = game.paddle2;
            let on_line = width / 2 - 1 <= px <= width / 2 && py % 20 < 10;
            let on_ball = ball.x <= px < ball.x + ball.size && ball.y <= py < ball.y + ball.size;
            let on_left = left.x <= px < left.x + left.width && left.y <= py < left.y
                + left.height;
            let on_right = right.x <= px < right.x + right.width && right.y <= py < right.y
                + right.height;
            let on_score1 = covered(
                digit_fills(game.score1 as int % 10, width / 4 - 8, 10),
                px,
                py,
            );
            let on_score2 = covered(
                digit_fills(game.score2 as int % 10, width * 3 / 4 - 8, 10),
                px,
                py,
            );
            let shown = renderer::pixel(
                renderer::painted_all(
                    renderer::cleared(buf, black_color()),
                    width,
                    height,
                    stride,
                    game_fills(game, width, height),
                ),
                stride,
                px,
                py,
                channel,
            );
            shown == (if channel == 3 || on_line || on_ball || on_left || on_right || on_score1
                || on_score2 {
                255u8
            } else {
                0u8
            })
        }),
{
    let lines = dashes(width, dash_count(height));
    let three = pieces(game);
    let digit1 = digit_fills(game.score1 as int % 10, width / 4 - 8, 10);
    let digit2 = digit_fills(game.score2 as int % 10, width * 3 / 4 - 8, 10);
    game_pixel(game, buf, width, height, stride, px, py, channel);
    center_line_is_dashed(width, height, px, py);
    covered_concat(lines, three, px, py);
    covered_concat(lines + three, digit1, px, py);
    covered_concat(lines + three + digit1, digit2, px, py);
    let one = seq![ball_fill(game.ball)];
    let two = seq![paddle_fill(game.paddle1)];
    let last = seq![paddle_fill(game.paddle2)];
    assert(three =~= one + two + last);
    covered_concat(one, two, px, py);
    covered_concat(one + two, last, px, py);
    covered_one(ball_fill(game.ball), px, py);
    covered_one(paddle_fill(game.paddle1), px, py);
    covered_one(paddle_fill(game.paddle2), px, py);
}

} // verus!
