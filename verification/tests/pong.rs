use d3os_virtio::pong::{
    draw_digit, follow_ball, handle_player_input, render_game, update_game, Ball, Game, Keyboard, Paddle,
    SCANCODE_S, SCANCODE_W,
};
use d3os_virtio::renderer::Graphics;

const WHITE: [u8; 4] = [0xFF, 0xFF, 0xFF, 0xFF];
const BLACK: [u8; 4] = [0, 0, 0, 0xFF];

fn pressed(code: u8) -> Keyboard {
    Keyboard { last_scancode: Some(code) }
}

fn pixel(buf: &[u8], stride: usize, x: usize, y: usize) -> [u8; 4] {
    let at = y * stride + 4 * x;
    [buf[at], buf[at + 1], buf[at + 2], buf[at + 3]]
}

#[test]
fn keyboard_keeps_the_last_key() {
    let mut keyboard = Keyboard::new();
    assert!(!keyboard.is_key_pressed(SCANCODE_W));
    keyboard.poll_keyboard(Some(SCANCODE_W));
    assert!(keyboard.is_key_pressed(SCANCODE_W));
    keyboard.poll_keyboard(None);
    assert!(keyboard.is_key_pressed(SCANCODE_W));
    keyboard.poll_keyboard(Some(SCANCODE_S));
    assert!(!keyboard.is_key_pressed(SCANCODE_W));
}

#[test]
fn paddle_stays_on_the_screen() {
    let mut paddle = Paddle { x: 20, y: 5, width: 10, height: 60 };
    handle_player_input(&mut paddle, &pressed(SCANCODE_W), 200);
    assert_eq!(paddle.y, 0);
    handle_player_input(&mut paddle, &pressed(SCANCODE_S), 200);
    assert_eq!(paddle.y, 10);
    paddle.y = 135;
    handle_player_input(&mut paddle, &pressed(SCANCODE_S), 200);
    assert_eq!(paddle.y, 140);
    handle_player_input(&mut paddle, &pressed(0x48), 200);
    assert_eq!(paddle.y, 140);
}

#[test]
fn game_begins_in_the_middle() {
    let game = Game::new(640, 480);
    assert_eq!(game.paddle1, Paddle { x: 20, y: 210, width: 10, height: 60 });
    assert_eq!(game.paddle2, Paddle { x: 610, y: 210, width: 10, height: 60 });
    assert_eq!(game.ball, Ball { x: 320, y: 240, size: 10, vx: 800, vy: 600 });
    assert_eq!((game.score1, game.score2), (0, 0));
}

#[test]
fn ball_flies_on() {
    let mut game = Game::new(640, 480);
    assert!(!update_game(&mut game, &Keyboard::new(), 211, 333, 250, 640, 480));
    assert_eq!(game.ball, Ball { x: 333, y: 250, size: 10, vx: 800, vy: 600 });
    assert_eq!(game.paddle2.y, 211);
}

#[test]
fn ball_bounces_off_top_and_bottom() {
    let mut game = Game::new(640, 480);
    update_game(&mut game, &Keyboard::new(), 0, 320, 470, 640, 480);
    assert_eq!(game.ball.vy, -600);
    update_game(&mut game, &Keyboard::new(), 0, 320, 0, 640, 480);
    assert_eq!(game.ball.vy, 600);
}

#[test]
fn ball_bounces_off_the_paddles() {
    let mut game = Game::new(640, 480);
    update_game(&mut game, &Keyboard::new(), 210, 600, 220, 640, 480);
    assert_eq!(game.ball.vx, -800);
    update_game(&mut game, &Keyboard::new(), 210, 30, 270, 640, 480);
    assert_eq!(game.ball.vx, 800);
    update_game(&mut game, &Keyboard::new(), 210, 599, 220, 640, 480);
    assert_eq!(game.ball.vx, 800);
    update_game(&mut game, &Keyboard::new(), 0, 600, 220, 640, 480);
    assert_eq!(game.ball.vx, 800);
}

#[test]
fn points_are_scored_and_the_ball_is_served() {
    let mut game = Game::new(640, 480);
    assert!(update_game(&mut game, &Keyboard::new(), 0, 0, 100, 640, 480));
    assert_eq!((game.score1, game.score2), (0, 1));
    assert_eq!(game.ball, Ball { x: 320, y: 240, size: 10, vx: 800, vy: 600 });
    assert!(update_game(&mut game, &Keyboard::new(), 0, 630, 100, 640, 480));
    assert_eq!((game.score1, game.score2), (1, 1));
    assert_eq!(game.ball, Ball { x: 320, y: 240, size: 10, vx: -800, vy: 600 });
}

#[test]
fn digits_have_seven_segments() {
    let lit = [
        [1, 1, 1, 0, 1, 1, 1],
        [0, 0, 1, 0, 0, 1, 0],
        [1, 0, 1, 1, 1, 0, 1],
        [1, 0, 1, 1, 0, 1, 1],
        [0, 1, 1, 1, 0, 1, 0],
        [1, 1, 0, 1, 0, 1, 1],
        [1, 1, 0, 1, 1, 1, 1],
        [1, 0, 1, 0, 0, 1, 0],
        [1, 1, 1, 1, 1, 1, 1],
        [1, 1, 1, 1, 0, 1, 1],
    ];
    let points = [(5, 0), (0, 5), (15, 5), (5, 15), (1, 20), (14, 27), (13, 29)];
    for digit in 0..11 {
        let mut buf = vec![0u8; 20 * 40 * 4];
        let mut gfx = Graphics::new(&mut buf, 20, 40, 80);
        draw_digit(&mut gfx, digit, 2, 3);
        for (segment, (x, y)) in points.iter().enumerate() {
            let on = lit[digit.min(9)][segment] == 1;
            assert_eq!(pixel(&buf, 80, 2 + x, 3 + y), if on { WHITE } else { [0; 4] });
        }
    }
}

#[test]
fn game_is_drawn() {
    let (width, height) = (640, 480);
    let mut buf = vec![7u8; width * height * 4];
    let mut game = Game::new(width, height);
    game.score1 = 21;
    game.ball.x = 100;
    game.ball.y = 300;
    let mut gfx = Graphics::new(&mut buf, width, height, width * 4);
    render_game(&mut gfx, &game);
    let at = |x, y| pixel(&buf, width * 4, x, y);
    assert_eq!(at(319, 0), WHITE);
    assert_eq!(at(320, 9), WHITE);
    assert_eq!(at(319, 10), BLACK);
    assert_eq!(at(319, 460), WHITE);
    assert_eq!(at(321, 0), BLACK);
    assert_eq!(at(100, 300), WHITE);
    assert_eq!(at(109, 309), WHITE);
    assert_eq!(at(110, 300), BLACK);
    assert_eq!(at(20, 210), WHITE);
    assert_eq!(at(29, 269), WHITE);
    assert_eq!(at(610, 210), WHITE);
    // The last digit of 21 has only its right segments.
    assert_eq!(at(152 + 14, 10 + 5), WHITE);
    assert_eq!(at(152 + 5, 10), BLACK);
    assert_eq!(at(472 + 5, 10), WHITE);
}

#[test]
fn machine_follows_the_ball_on_the_screen() {
    let paddle = Paddle { x: 610, y: 410, width: 10, height: 60 };
    assert_eq!(follow_ball(&paddle, true, 416, 480), 416);
    assert_eq!(follow_ball(&paddle, true, 425, 480), 420);
    assert_eq!(follow_ball(&paddle, false, 403, 480), 403);
    assert_eq!(follow_ball(&paddle, false, 0, 480), 0);
}
