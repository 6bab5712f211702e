//! The game of Pong: paddles, ball, scores and the picture of them.
//!
//! The ball flies on fractions of a pixel; the game reads whole pixels only. The flight
//! itself, and the machine's paddle that follows it, are given to [`update_game`] as whole
//! pixels.

use crate::renderer;
use crate::renderer::{Fill, Graphics};
use vstd::prelude::*;

verus! {

/// The key that moves the player's paddle up.
pub const SCANCODE_W: u8 = 0x11;

/// The key that moves the player's paddle down.
pub const SCANCODE_S: u8 = 0x1F;

/// Player paddle state.
#[derive(Clone, Copy, Debug, PartialEq, Eq, Structural)]
pub struct Paddle {
    /// Top-left corner X position in pixels.
    pub x: usize,
    /// Top-left corner Y position in pixels.
    pub y: usize,
    /// Paddle width in pixels.
    pub width: usize,
    /// Paddle height in pixels.
    pub height: usize,
}

/// Ball state and velocity.
#[derive(Clone, Copy, Debug, PartialEq, Eq, Structural)]
pub struct Ball {
    /// X coordinate in whole pixels.
    pub x: usize,
    /// Y coordinate in whole pixels.
    pub y: usize,
    /// Size (width and height) in pixels.
    pub size: usize,
    /// Horizontal velocity in pixels per second.
    pub vx: i32,
    /// Vertical velocity in pixels per second.
    pub vy: i32,
}

/// Everything that a game consists of.
#[derive(Clone, Copy, Debug, PartialEq, Eq, Structural)]
pub struct Game {
    pub paddle1: Paddle,
    pub paddle2: Paddle,
    pub ball: Ball,
    pub score1: usize,
    pub score2: usize,
}

/// The last keyboard scancode read.
#[derive(Clone, Copy, Debug, PartialEq, Eq, Structural)]
pub struct Keyboard {
    pub last_scancode: Option<u8>,
}

impl Keyboard {
    /// No key has been pressed yet.
    pub fn new() -> (keyboard: Keyboard)
        ensures
            keyboard.last_scancode is None,
    {
        Keyboard { last_scancode: None }
    }

    /// Remembers the byte that the keyboard controller gave, if it gave one.
    pub fn poll_keyboard(&mut self, code: Option<u8>)
        ensures
            final(self).last_scancode == (if code is Some {
                code
            } else {
                old(self).last_scancode
            }),
    {
        if code.is_some() {
            self.last_scancode = code;
        }
    }

    /// Check if the specified scancode was the last key pressed.
    pub fn is_key_pressed(&self, scancode: u8) -> (pressed: bool)
        ensures
            pressed == (self.last_scancode == Some(scancode)),
    {
        match self.last_scancode {
            Some(code) => code == scancode,
            None => false,
        }
    }
}

/// The absolute value of a velocity.
pub open spec fn speed(v: i32) -> int {
    if v < 0 {
        -v
    } else {
        v as int
    }
}

/// The player's paddle after the last key has taken effect: ten pixels up or down, but
/// never off the screen.
pub open spec fn player_moved(paddle: Paddle, last: Option<u8>, height: int) -> Paddle {
    if last == Some(SCANCODE_W) {
        Paddle {
            y: if paddle.y >= 10 {
                (paddle.y - 10) as usize
            } else {
                0
            },
            ..paddle
        }
    } else if last == Some(SCANCODE_S) {
        Paddle { y: renderer::smaller(paddle.y + 10, height - paddle.height) as usize, ..paddle }
    } else {
        paddle
    }
}

/// The ball is at the top or at the bottom of the screen.
pub open spec fn at_edge(y: int, size: int, height: int) -> bool {
    y == 0 || y + size >= height
}

/// The ball is level with a paddle.
pub open spec fn level_with(y: int, size: int, paddle: Paddle) -> bool {
    y + size >= paddle.y && y <= paddle.y + paddle.height
}

/// The ball meets the left paddle.
pub open spec fn hits_left(x: int, y: int, size: int, paddle: Paddle) -> bool {
    x <= paddle.x + paddle.width && level_with(y, size, paddle)
}

/// The ball meets the right paddle.
pub open spec fn hits_right(x: int, y: int, size: int, paddle: Paddle) -> bool {
    x + size >= paddle.x && level_with(y, size, paddle)
}

/// The horizontal velocity after the paddles: away from the one that was met. A ball that
/// meets both flies to the left.
pub open spec fn vx_after(ball: Ball, x: int, y: int, paddle1: Paddle, paddle2: Paddle) -> int {
    if hits_right(x, y, ball.size as int, paddle2) {
        -speed(ball.vx)
    } else if hits_left(x, y, ball.size as int, paddle1) {
        speed(ball.vx)
    } else {
        ball.vx as int
    }
}

/// The ball has left the screen on the left.
pub open spec fn out_left(x: int) -> bool {
    x == 0
}

/// The ball has left the screen on the right, and not on the left.
pub open spec fn out_right(x: int, size: int, width: int) -> bool {
    x != 0 && x + size >= width
}

/// The ball after its flight has taken it to `x` and `y`.
pub open spec fn ball_after(
    ball: Ball,
    x: int,
    y: int,
    paddle1: Paddle,
    paddle2: Paddle,
    width: int,
    height: int,
) -> Ball {
    if out_left(x) {
        served(ball, width, height, 800)
    } else if out_right(x, ball.size as int, width) {
        served(ball, width, height, -800)
    } else {
        Ball {
            x: x as usize,
            y: y as usize,
            size: ball.size,
            vx: vx_after(ball, x, y, paddle1, paddle2) as i32,
            vy: if at_edge(y, ball.size as int, height) {
                (-ball.vy) as i32
            } else {
                ball.vy
            },
        }
    }
}

/// A ball that is served from the middle of the screen.
pub open spec fn served(ball: Ball, width: int, height: int, vx: int) -> Ball {
    Ball { x: (width / 2) as usize, y: (height / 2) as usize, size: ball.size, vx: vx as i32, vy: 600 }
}

/// A game after a turn: the player's key is `last`, the machine's paddle has moved to
/// `paddle2_y`, and the ball has flown to `x` and `y`.
pub open spec fn game_after(
    game: Game,
    last: Option<u8>,
    paddle2_y: usize,
    x: int,
    y: int,
    width: int,
    height: int,
) -> Game {
    let paddle1 = player_moved(game.paddle1, last, height);
    let paddle2 = Paddle { y: paddle2_y, ..game.paddle2 };
    Game {
        paddle1,
        paddle2,
        ball: ball_after(game.ball, x, y, paddle1, paddle2, width, height),
        score1: if out_right(x, game.ball.size as int, width) {
            (game.score1 + 1) as usize
        } else {
            game.score1
        },
        score2: if out_left(x) {
            (game.score2 + 1) as usize
        } else {
            game.score2
        },
    }
}

/// The player's key can take effect.
pub open spec fn key_allowed(paddle: Paddle, last: Option<u8>, height: int) -> bool {
    last == Some(SCANCODE_S) ==> paddle.height <= height && paddle.y + 10 <= usize::MAX
}

/// The sums that the collision tests form can be represented.
pub open spec fn sums_representable(game: Game, x: int, y: int) -> bool {
    &&& x + game.ball.size <= usize::MAX
    &&& y + game.ball.size <= usize::MAX
    &&& game.paddle1.x + game.paddle1.width <= usize::MAX
}

/// Handle user input for the left paddle (W/S keys).
pub fn handle_player_input(paddle: &mut Paddle, keyboard: &Keyboard, height: usize)
    requires
        key_allowed(*old(paddle), keyboard.last_scancode, height as int),
    ensures
        *final(paddle) == player_moved(*old(paddle), keyboard.last_scancode, height as int),
{
    if keyboard.is_key_pressed(SCANCODE_W) {
        paddle.y = paddle.y.saturating_sub(10);
    }
    if keyboard.is_key_pressed(SCANCODE_S) {
        let below: usize = paddle.y + 10;
        let lowest: usize = height - paddle.height;
        paddle.y = if below <= lowest {
            below
        } else {
            lowest
        };
    }
}

/// Update the game state: paddle positions, collisions, and scoring.
///
/// `ball_x` and `ball_y` are where the ball's flight has taken it, and `paddle2_y` is where
/// the machine has moved its paddle. The result says whether the ball was served anew.
pub fn update_game(
    game: &mut Game,
    keyboard: &Keyboard,
    paddle2_y: usize,
    ball_x: usize,
    ball_y: usize,
    width: usize,
    height: usize,
) -> (again: bool)
    requires
        key_allowed(old(game).paddle1, keyboard.last_scancode, height as int),
        sums_representable(*old(game), ball_x as int, ball_y as int),
        player_moved(old(game).paddle1, keyboard.last_scancode, height as int).y
            + old(game).paddle1.height <= usize::MAX,
        paddle2_y + old(game).paddle2.height <= usize::MAX,
        old(game).ball.vx > i32::MIN,
        old(game).ball.vy > i32::MIN,
        out_left(ball_x as int) ==> old(game).score2 < usize::MAX,
        out_right(ball_x as int, old(game).ball.size as int, width as int) ==> old(game).score1
            < usize::MAX,
    ensures
        *final(game) == game_after(
            *old(game),
            keyboard.last_scancode,
            paddle2_y,
            ball_x as int,
            ball_y as int,
            width as int,
            height as int,
        ),
        again == (out_left(ball_x as int) || out_right(
            ball_x as int,
            old(game).ball.size as int,
            width as int,
        )),
        again <==> ball_x == 0 || ball_x + old(game).ball.size >= width,
        !again ==> {
            let left = final(game).paddle1;
            let right = final(game).paddle2;
            let size = old(game).ball.size;
            let in_left = ball_x <= left.x + left.width && ball_y + size >= left.y && ball_y
                <= left.y + left.height;
            let in_right = ball_x + size >= right.x && ball_y + size >= right.y && ball_y
                <= right.y + right.height;
            &&& in_right ==> final(game).ball.vx <= 0
            &&& in_left && !in_right ==> final(game).ball.vx >= 0
            &&& !in_left && !in_right ==> final(game).ball.vx == old(game).ball.vx
        },
{
    handle_player_input(&mut game.paddle1, keyboard, height);
    game.paddle2.y = paddle2_y;
    game.ball.x = ball_x;
    game.ball.y = ball_y;
    let size: usize = game.ball.size;

    // Bounce off top/bottom edges
    if ball_y == 0 || ball_y + size >= height {
        game.ball.vy = -game.ball.vy;
    }

    // Bounce off paddles
    if ball_x <= game.paddle1.x + game.paddle1.width && ball_y + size >= game.paddle1.y && ball_y
        <= game.paddle1.y + game.paddle1.height {
        if game.ball.vx < 0 {
            game.ball.vx = -game.ball.vx;
        }
    }
    if ball_x + size >= game.paddle2.x && ball_y + size >= game.paddle2.y && ball_y
        <= game.paddle2.y + game.paddle2.height {
        if game.ball.vx > 0 {
            game.ball.vx = -game.ball.vx;
        }
    }

    // Out of bounds: score and reset ball
    if ball_x == 0 {
        game.score2 = game.score2 + 1;
        game.ball = Ball { x: width / 2, y: height / 2, size, vx: 800, vy: 600 };
        true
    } else if ball_x + size >= width {
        game.score1 = game.score1 + 1;
        game.ball = Ball { x: width / 2, y: height / 2, size, vx: -800, vy: 600 };
        true
    } else {
        false
    }
}

/// Where the machine's paddle goes. `below` says that the ball is below the middle of the
/// paddle, and `flown` is where the machine's speed would take the paddle: down, but not off
/// the screen, if the ball is below, and up otherwise.
pub open spec fn machine_moved(paddle: Paddle, below: bool, flown: usize, height: int) -> int {
    if below {
        renderer::smaller(flown as int, height - paddle.height)
    } else {
        flown as int
    }
}

/// Moves the machine's paddle towards the ball.
pub fn follow_ball(paddle: &Paddle, below: bool, flown: usize, height: usize) -> (y: usize)
    requires
        below ==> paddle.height <= height,
    ensures
        y == machine_moved(*paddle, below, flown, height as int),
{
    if below {
        let lowest: usize = height - paddle.height;
        if flown <= lowest {
            flown
        } else {
            lowest
        }
    } else {
        flown
    }
}

/// The machine's speed takes its paddle down if the ball is below, and up otherwise.
pub open spec fn flies_towards(paddle: Paddle, below: bool, flown: usize) -> bool {
    if below {
        flown >= paddle.y
    } else {
        flown <= paddle.y
    }
}

/// The machine's paddle follows the ball and stays on the screen.
pub proof fn machine_follows_the_ball(paddle: Paddle, below: bool, flown: usize, height: int)
    requires
        paddle.y + paddle.height <= height,
        flies_towards(paddle, below, flown),
    ensures
        below ==> machine_moved(paddle, below, flown, height) >= paddle.y,
        !below ==> machine_moved(paddle, below, flown, height) <= paddle.y,
        0 <= machine_moved(paddle, below, flown, height),
        machine_moved(paddle, below, flown, height) + paddle.height <= height,
{
}

/// A game at its start.
pub open spec fn initial_game(width: int, height: int) -> Game {
    Game {
        paddle1: Paddle { x: 20, y: (height / 2 - 30) as usize, width: 10, height: 60 },
        paddle2: Paddle {
            x: (width - 30) as usize,
            y: (height / 2 - 30) as usize,
            width: 10,
            height: 60,
        },
        ball: Ball {
            x: (width / 2) as usize,
            y: (height / 2) as usize,
            size: 10,
            vx: 800,
            vy: 600,
        },
        score1: 0,
        score2: 0,
    }
}

impl Game {
    /// A new game on a screen of the given size.
    pub fn new(width: usize, height: usize) -> (game: Game)
        requires
            width >= 30,
            height >= 60,
        ensures
            game == initial_game(width as int, height as int),
    {
        Game {
            paddle1: Paddle { x: 20, y: height / 2 - 30, width: 10, height: 60 },
            paddle2: Paddle { x: width - 30, y: height / 2 - 30, width: 10, height: 60 },
            ball: Ball { x: width / 2, y: height / 2, size: 10, vx: 800, vy: 600 },
            score1: 0,
            score2: 0,
        }
    }

    /// What holds in every turn: both paddles are on the screen and stay in their columns,
    /// and the ball keeps its size and its speed.
    pub open spec fn inv(self, width: int, height: int) -> bool {
        &&& self.paddle1.x == 20
        &&& self.paddle1.width == 10
        &&& self.paddle1.height == 60
        &&& self.paddle1.y + 60 <= height
        &&& self.paddle2.x == width - 30
        &&& self.paddle2.width == 10
        &&& self.paddle2.height == 60
        &&& self.paddle2.y + 60 <= height
        &&& self.ball.size == 10
        &&& speed(self.ball.vx) == 800
        &&& speed(self.ball.vy) == 600
    }
}

/// A new game has the invariant.
pub proof fn new_game_inv(width: int, height: int)
    requires
        30 <= width <= usize::MAX,
        60 <= height <= usize::MAX,
    ensures
        initial_game(width, height).inv(width, height),
{
}

/// Every turn keeps the invariant, whatever the key and the flight of the ball, as long as the
/// machine keeps its paddle on the screen.
pub proof fn turn_keeps_inv(
    game: Game,
    last: Option<u8>,
    paddle2_y: usize,
    x: int,
    y: int,
    width: int,
    height: int,
)
    requires
        game.inv(width, height),
        60 <= height <= usize::MAX,
        paddle2_y + 60 <= height,
    ensures
        game_after(game, last, paddle2_y, x, y, width, height).inv(width, height),
{
}

/// The invariant answers for what a turn asks of the game, but for the scores' room.
pub proof fn inv_allows_turn(
    game: Game,
    last: Option<u8>,
    paddle2_y: usize,
    x: int,
    y: int,
    width: int,
    height: int,
)
    requires
        game.inv(width, height),
        30 <= width <= usize::MAX,
        60 <= height <= isize::MAX,
        0 <= x < width,
        0 <= y < height,
        width <= isize::MAX,
        paddle2_y + 60 <= height,
    ensures
        key_allowed(game.paddle1, last, height),
        sums_representable(game, x, y),
        player_moved(game.paddle1, last, height).y + game.paddle1.height <= usize::MAX,
        paddle2_y + game.paddle2.height <= usize::MAX,
        game.ball.vx > i32::MIN,
        game.ball.vy > i32::MIN,
{
}

/// A turn scores at most one point, for the side that the ball did not leave on, and it
/// scores exactly when the ball is served anew from the middle, toward the side that
/// scored.
pub proof fn points_are_served(
    game: Game,
    last: Option<u8>,
    paddle2_y: usize,
    x: int,
    y: int,
    width: int,
    height: int,
)
    requires
        game.score1 < usize::MAX,
        game.score2 < usize::MAX,
    ensures
        ({
            let after = game_after(game, last, paddle2_y, x, y, width, height);
            let points = (after.score1 - game.score1) + (after.score2 - game.score2);
            &&& points == (if out_left(x) || out_right(x, game.ball.size as int, width) {
                1int
            } else {
                0
            })
            &&& after.score2 > game.score2 ==> after.ball == served(game.ball, width, height, 800)
            &&& after.score1 > game.score1 ==> after.ball == served(game.ball, width, height, -800)
        }),
{
}

/// The color of everything that is drawn.
pub open spec fn white_color() -> Seq<u8> {
    seq![0xFFu8, 0xFFu8, 0xFFu8, 0xFFu8]
}

/// The color of the ground.
pub open spec fn black_color() -> Seq<u8> {
    seq![0u8, 0u8, 0u8, 0xFFu8]
}

/// Whether a digit lights a segment: top, top left, top right, middle, bottom left, bottom
/// right, bottom.
pub open spec fn segment_lit(digit: int, segment: int) -> bool {
    if segment == 0 {
        digit != 1 && digit != 4
    } else if segment == 1 {
        digit == 0 || digit == 4 || digit == 5 || digit == 6 || digit == 8 || digit == 9
    } else if segment == 2 {
        digit != 5 && digit != 6
    } else if segment == 3 {
        digit != 0 && digit != 1 && digit != 7
    } else if segment == 4 {
        digit == 0 || digit == 2 || digit == 6 || digit == 8
    } else if segment == 5 {
        digit != 2
    } else {
        digit != 1 && digit != 4 && digit != 7
    }
}

/// A segment of a digit whose top left corner is at `x` and `y`.
pub open spec fn segment_fill(segment: int, x: int, y: int) -> Fill {
    let across = segment == 0 || segment == 3 || segment == 6;
    Fill {
        x: x + (if across {
            2int
        } else if segment == 1 || segment == 4 {
            0
        } else {
            14
        }),
        y: y + (if segment == 0 {
            0int
        } else if segment == 1 || segment == 2 {
            2
        } else if segment == 3 {
            14
        } else if segment == 4 || segment == 5 {
            16
        } else {
            28
        }),
        w: if across {
            12
        } else {
            2
        },
        h: if across {
            2
        } else {
            12
        },
        color: white_color(),
    }
}

/// The lit ones among the first `count` segments of a digit.
pub open spec fn lit_segments(digit: int, x: int, y: int, count: int) -> Seq<Fill>
    decreases count,
{
    if count <= 0 {
        Seq::empty()
    } else if segment_lit(digit, count - 1) {
        lit_segments(digit, x, y, count - 1).push(segment_fill(count - 1, x, y))
    } else {
        lit_segments(digit, x, y, count - 1)
    }
}

/// A digit at `x` and `y`; what is no digit is shown as 9.
pub open spec fn digit_fills(digit: int, x: int, y: int) -> Seq<Fill> {
    lit_segments(renderer::smaller(digit, 9), x, y, 7)
}

/// The corners of the rectangles can be represented.
pub open spec fn corners_representable(fills: Seq<Fill>) -> bool {
    forall|i: int|
        0 <= i < fills.len() ==> (#[trigger] fills[i]).x <= usize::MAX && fills[i].y <= usize::MAX
}

/// The number of dashes of the center line.
pub open spec fn dash_count(height: int) -> int {
    (height + 19) / 20
}

/// The first `count` dashes of the center line.
pub open spec fn dashes(width: int, count: int) -> Seq<Fill> {
    Seq::new(
        count as nat,
        |k: int| Fill { x: width / 2 - 1, y: 20 * k, w: 2, h: 10, color: white_color() },
    )
}

/// A paddle as a rectangle.
pub open spec fn paddle_fill(paddle: Paddle) -> Fill {
    Fill {
        x: paddle.x as int,
        y: paddle.y as int,
        w: paddle.width as int,
        h: paddle.height as int,
        color: white_color(),
    }
}

/// The ball as a square.
pub open spec fn ball_fill(ball: Ball) -> Fill {
    Fill {
        x: ball.x as int,
        y: ball.y as int,
        w: ball.size as int,
        h: ball.size as int,
        color: white_color(),
    }
}

/// Ball and paddles.
pub open spec fn pieces(game: Game) -> Seq<Fill> {
    seq![ball_fill(game.ball), paddle_fill(game.paddle1), paddle_fill(game.paddle2)]
}

/// The picture of a game: center line, ball, paddles and the last digit of each score.
pub open spec fn game_fills(game: Game, width: int, height: int) -> Seq<Fill> {
    dashes(width, dash_count(height)) + pieces(game) + digit_fills(
        game.score1 as int % 10,
        width / 4 - 8,
        10,
    ) + digit_fills(game.score2 as int % 10, width * 3 / 4 - 8, 10)
}

/// The segments of a digit, in order.
fn segments(digit: usize) -> (lit: [bool; 7])
    requires
        digit <= 9,
    ensures
        forall|i: int| 0 <= i < 7 ==> #[trigger] lit@[i] == segment_lit(digit as int, i),
{
    match digit {
        0 => [true, true, true, false, true, true, true],
        1 => [false, false, true, false, false, true, false],
        2 => [true, false, true, true, true, false, true],
        3 => [true, false, true, true, false, true, true],
        4 => [false, true, true, true, false, true, false],
        5 => [true, true, false, true, false, true, true],
        6 => [true, true, false, true, true, true, true],
        7 => [true, false, true, false, false, true, false],
        8 => [true, true, true, true, true, true, true],
        _ => [true, true, true, true, false, true, true],
    }
}

/// Where a segment lies in its digit: the offsets of its corner, its width and its height.
fn segment_def(segment: usize) -> (def: (usize, usize, usize, usize))
    requires
        segment < 7,
    ensures
        def.0 == segment_fill(segment as int, 0, 0).x,
        def.1 == segment_fill(segment as int, 0, 0).y,
        def.2 == segment_fill(segment as int, 0, 0).w,
        def.3 == segment_fill(segment as int, 0, 0).h,
{
    match segment {
        0 => (2, 0, 12, 2),
        1 => (0, 2, 2, 12),
        2 => (14, 2, 2, 12),
        3 => (2, 14, 12, 2),
        4 => (0, 16, 2, 12),
        5 => (14, 16, 2, 12),
        _ => (2, 28, 12, 2),
    }
}

/// The first segments are the beginning of the digit.
proof fn segments_extend(digit: int, x: int, y: int, count: int)
    requires
        0 <= count <= 7,
    ensures
        lit_segments(digit, x, y, count).len() <= lit_segments(digit, x, y, 7).len(),
        lit_segments(digit, x, y, count) == lit_segments(digit, x, y, 7).take(
            lit_segments(digit, x, y, count).len() as int,
        ),
    decreases 7 - count,
{
    if count < 7 {
        segments_extend(digit, x, y, count + 1);
        let next = lit_segments(digit, x, y, count + 1);
        let all = lit_segments(digit, x, y, 7);
        let here = lit_segments(digit, x, y, count);
        assert(here =~= next.take(here.len() as int));
        assert(here =~= all.take(here.len() as int));
    } else {
        assert(lit_segments(digit, x, y, 7) =~= lit_segments(digit, x, y, 7).take(
            lit_segments(digit, x, y, 7).len() as int,
        ));
    }
}

/// Draw a single digit (0–9) at the given position using a 7-segment style.
pub fn draw_digit(gfx: &mut Graphics, digit: usize, x: usize, y: usize)
    requires
        renderer::all_fit(
            old(gfx).buf@.len() as int,
            old(gfx).width as int,
            old(gfx).height as int,
            old(gfx).stride as int,
            digit_fills(digit as int, x as int, y as int),
        ),
        corners_representable(digit_fills(digit as int, x as int, y as int)),
    ensures
        final(gfx).repainted(
            *old(gfx),
            renderer::painted_all(
                old(gfx).buf@,
                old(gfx).width as int,
                old(gfx).height as int,
                old(gfx).stride as int,
                digit_fills(digit as int, x as int, y as int),
            ),
        ),
        final(final(gfx).buf)@ == final(old(gfx).buf)@,
{
    let shown: usize = if digit <= 9 {
        digit
    } else {
        9
    };
    let lit = segments(shown);
    let white: [u8; 4] = [0xFF, 0xFF, 0xFF, 0xFF];
    assert(white@ =~= white_color());
    let ghost before = gfx.buf@;
    let ghost width = gfx.width as int;
    let ghost height = gfx.height as int;
    let ghost stride = gfx.stride as int;
    let ghost all = digit_fills(digit as int, x as int, y as int);
    let mut i: usize = 0;
    while i < 7
        invariant
            i <= 7,
            shown == renderer::smaller(digit as int, 9),
            forall|k: int| 0 <= k < 7 ==> #[trigger] lit@[k] == segment_lit(shown as int, k),
            white@ == white_color(),
            all == digit_fills(digit as int, x as int, y as int),
            renderer::all_fit(before.len() as int, width, height, stride, all),
            corners_representable(all),
            width == gfx.width,
            height == gfx.height,
            stride == gfx.stride,
            gfx.width == old(gfx).width,
            gfx.height == old(gfx).height,
            gfx.stride == old(gfx).stride,
            final(gfx.buf)@ == final(old(gfx).buf)@,
            gfx.buf@ == renderer::painted_all(
                before,
                width,
                height,
                stride,
                lit_segments(shown as int, x as int, y as int, i as int),
            ),
        decreases 7 - i,
    {
        if lit[i] {
            let (dx, dy, w, h) = segment_def(i);
            let ghost drawn = lit_segments(shown as int, x as int, y as int, i as int);
            let ghost fill = segment_fill(i as int, x as int, y as int);
            proof {
                segments_extend(shown as int, x as int, y as int, i + 1);
                assert(drawn.push(fill).last() == fill);
                assert(all[drawn.len() as int] == fill);
                renderer::painted_all_push(before, width, height, stride, drawn, fill);
            }
            gfx.fill_rect(x + dx, y + dy, w, h, white);
        }
        i = i + 1;
    }
}

/// Render paddles, ball, center line, and scores to the framebuffer.
pub fn render_game(gfx: &mut Graphics, game: &Game)
    requires
        32 <= old(gfx).width,
        old(gfx).width * 3 <= usize::MAX,
        renderer::all_fit(
            old(gfx).buf@.len() as int,
            old(gfx).width as int,
            old(gfx).height as int,
            old(gfx).stride as int,
            game_fills(*game, old(gfx).width as int, old(gfx).height as int),
        ),
    ensures
        final(gfx).repainted(
            *old(gfx),
            renderer::painted_all(
                renderer::cleared(old(gfx).buf@, black_color()),
                old(gfx).width as int,
                old(gfx).height as int,
                old(gfx).stride as int,
                game_fills(*game, old(gfx).width as int, old(gfx).height as int),
            ),
        ),
        final(final(gfx).buf)@ == final(old(gfx).buf)@,
{
    let black: [u8; 4] = [0, 0, 0, 0xFF];
    let white: [u8; 4] = [0xFF, 0xFF, 0xFF, 0xFF];
    assert(black@ =~= black_color());
    assert(white@ =~= white_color());
    let ghost len = gfx.buf@.len() as int;
    let ghost width = gfx.width as int;
    let ghost height = gfx.height as int;
    let ghost stride = gfx.stride as int;
    let ghost lines = dashes(width, dash_count(height));
    let ghost left = digit_fills(game.score1 as int % 10, width / 4 - 8, 10);
    let ghost right = digit_fills(game.score2 as int % 10, width * 3 / 4 - 8, 10);
    proof {
        renderer::all_fit_concat(len, width, height, stride, lines + pieces(*game) + left, right);
        renderer::all_fit_concat(len, width, height, stride, lines + pieces(*game), left);
        renderer::all_fit_concat(len, width, height, stride, lines, pieces(*game));
    }

    // Clear screen to black
    gfx.clear_screen(black);
    let ghost ground = gfx.buf@;

    // Draw dashed center line
    let center: usize = gfx.width / 2 - 1;
    let count: usize = gfx.height / 20 + (if gfx.height % 20 == 0 {
        0
    } else {
        1
    });
    let mut k: usize = 0;
    while k < count
        invariant
            k <= count,
            count == dash_count(height),
            center == width / 2 - 1,
            white@ == white_color(),
            lines == dashes(width, dash_count(height)),
            renderer::all_fit(len, width, height, stride, lines),
            len == ground.len(),
            width == gfx.width,
            height == gfx.height,
            stride == gfx.stride,
            gfx.width == old(gfx).width,
            gfx.height == old(gfx).height,
            gfx.stride == old(gfx).stride,
            final(gfx.buf)@ == final(old(gfx).buf)@,
            gfx.buf@ == renderer::painted_all(
                ground,
                width,
                height,
                stride,
                dashes(width, k as int),
            ),
        decreases count - k,
    {
        proof {
            let fill = lines[k as int];
            renderer::painted_all_push(ground, width, height, stride, dashes(width, k as int), fill);
            assert(dashes(width, k + 1) =~= dashes(width, k as int).push(fill));
        }
        gfx.fill_rect(center, k * 20, 2, 10, white);
        k = k + 1;
    }

    // Draw ball and paddles as white rectangles
    let ghost three = pieces(*game);
    let ghost lined = gfx.buf@;
    proof {
        renderer::painted_all_len(ground, width, height, stride, lines);
        let none = Seq::<Fill>::empty();
        assert(three.take(0) =~= none);
        assert(three.take(1) =~= none.push(three[0]));
        assert(three.take(2) =~= three.take(1).push(three[1]));
        assert(three =~= three.take(2).push(three[2]));
        renderer::painted_all_push(lined, width, height, stride, none, three[0]);
        renderer::painted_all_push(lined, width, height, stride, three.take(1), three[1]);
        renderer::painted_all_push(lined, width, height, stride, three.take(2), three[2]);
        renderer::painted_all_len(lined, width, height, stride, three);
    }
    gfx.fill_rect(game.ball.x, game.ball.y, game.ball.size, game.ball.size, white);
    gfx.fill_rect(
        game.paddle1.x,
        game.paddle1.y,
        game.paddle1.width,
        game.paddle1.height,
        white,
    );
    gfx.fill_rect(
        game.paddle2.x,
        game.paddle2.y,
        game.paddle2.width,
        game.paddle2.height,
        white,
    );
    assert(gfx.buf@ == renderer::painted_all(lined, width, height, stride, three));

    // Draw scores using 7-segment digits
    let ghost pieced = gfx.buf@;
    proof {
        corners_of_digit(game.score1 as int % 10, width / 4 - 8, 10);
        corners_of_digit(game.score2 as int % 10, width * 3 / 4 - 8, 10);
        renderer::painted_all_len(pieced, width, height, stride, left);
    }
    draw_digit(gfx, game.score1 % 10, gfx.width / 4 - 8, 10);
    draw_digit(gfx, game.score2 % 10, gfx.width * 3 / 4 - 8, 10);
    proof {
        renderer::painted_all_concat(ground, width, height, stride, lines, three);
        renderer::painted_all_concat(ground, width, height, stride, lines + three, left);
        renderer::painted_all_concat(ground, width, height, stride, lines + three + left, right);
    }
}

/// The corners of a digit are near the digit's own.
pub proof fn corners_of_digit(digit: int, x: int, y: int)
    ensures
        forall|i: int|
            0 <= i < digit_fills(digit, x, y).len() ==> x <= (#[trigger] digit_fills(
                digit,
                x,
                y,
            )[i]).x <= x + 14 && y <= digit_fills(digit, x, y)[i].y <= y + 28 && 0 <= digit_fills(
                digit,
                x,
                y,
            )[i].w && 0 <= digit_fills(digit, x, y)[i].h,
{
    reveal_with_fuel(lit_segments, 8);
}

/// A screen that lies in its buffer can show every game.
pub proof fn screen_fits_game(game: Game, len: int, width: int, height: int, stride: int)
    requires
        32 <= width,
        0 <= height,
        4 * width <= stride,
        stride * height <= len,
    ensures
        renderer::all_fit(len, width, height, stride, game_fills(game, width, height)),
{
    corners_of_digit(game.score1 as int % 10, width / 4 - 8, 10);
    corners_of_digit(game.score2 as int % 10, width * 3 / 4 - 8, 10);
    renderer::screen_fits_all(len, width, height, stride, game_fills(game, width, height));
}

/// In the picture of a game a pixel is white if the center line, the ball, a paddle or a lit
/// segment covers it, and black otherwise.
pub proof fn game_pixel(
    game: Game,
    buf: Seq<u8>,
    width: int,
    height: int,
    stride: int,
    px: int,
    py: int,
    channel: int,
)
    requires
        32 <= width,
        4 * width <= stride,
        stride % 4 == 0,
        stride * height <= buf.len(),
        0 <= px < width,
        0 <= py < height,
        0 <= channel < 4,
    ensures
        renderer::pixel(
            renderer::painted_all(
                renderer::cleared(buf, black_color()),
                width,
                height,
                stride,
                game_fills(game, width, height),
            ),
            stride,
            px,
            py,
            channel,
        ) == (if renderer::covered(game_fills(game, width, height), px, py) {
            white_color()[channel]
        } else {
            black_color()[channel]
        }),
{
    let fills = game_fills(game, width, height);
    let ground = renderer::cleared(buf, black_color());
    let under = Seq::new(4, |c: int| renderer::pixel(ground, stride, px, py, c));
    corners_of_digit(game.score1 as int % 10, width / 4 - 8, 10);
    corners_of_digit(game.score2 as int % 10, width * 3 / 4 - 8, 10);
    digit_is_white(game.score1 as int % 10, width / 4 - 8, 10);
    digit_is_white(game.score2 as int % 10, width * 3 / 4 - 8, 10);
    renderer::last_rectangle_shows(ground, width, height, stride, fills, px, py, channel);
    renderer::clear_screen_paints_every_pixel(
        buf,
        width,
        height,
        stride,
        black_color(),
        px,
        py,
        channel,
    );
    renderer::shown_color_of_one(under, fills, white_color(), px, py);
}

/// Every segment of a digit is white.
proof fn digit_is_white(digit: int, x: int, y: int)
    ensures
        forall|i: int|
            0 <= i < digit_fills(digit, x, y).len() ==> (#[trigger] digit_fills(
                digit,
                x,
                y,
            )[i]).color == white_color(),
{
    reveal_with_fuel(lit_segments, 8);
}

} // verus!
