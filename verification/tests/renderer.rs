use d3os_virtio::renderer::Graphics;

const RED: [u8; 4] = [255, 0, 0, 255];
const BLUE: [u8; 4] = [0, 0, 255, 255];

fn pixel(buf: &[u8], stride: usize, x: usize, y: usize) -> [u8; 4] {
    let at = y * stride + 4 * x;
    [buf[at], buf[at + 1], buf[at + 2], buf[at + 3]]
}

#[test]
fn rectangle_is_filled() {
    let mut buf = vec![0u8; 4 * 4 * 4];
    let mut gfx = Graphics::new(&mut buf, 4, 4, 16);
    gfx.fill_rect(1, 2, 2, 1, RED);
    for y in 0..4 {
        for x in 0..4 {
            let inside = (1..3).contains(&x) && y == 2;
            assert_eq!(pixel(&buf, 16, x, y), if inside { RED } else { [0; 4] });
        }
    }
}

#[test]
fn rectangle_is_cut_at_the_edges() {
    let mut buf = vec![0u8; 4 * 4 * 4];
    let mut gfx = Graphics::new(&mut buf, 4, 4, 16);
    gfx.fill_rect(3, 3, 10, 10, RED);
    gfx.fill_rect(4, 0, 1, 1, BLUE);
    gfx.fill_rect(0, 4, 1, 1, BLUE);
    gfx.fill_rect(0, 0, 0, 4, BLUE);
    gfx.fill_rect(1, 1, 1, usize::MAX, BLUE);
    for y in 0..4 {
        for x in 0..4 {
            let expected = if (x, y) == (3, 3) {
                RED
            } else if x == 1 && y >= 1 {
                BLUE
            } else {
                [0; 4]
            };
            assert_eq!(pixel(&buf, 16, x, y), expected);
        }
    }
}

#[test]
fn padding_of_the_rows_is_left_alone() {
    let mut buf = vec![9u8; 2 * 12];
    let mut gfx = Graphics::new(&mut buf, 2, 2, 12);
    gfx.fill_rect(0, 0, 2, 2, RED);
    assert_eq!(&buf[8..12], &[9, 9, 9, 9]);
    assert_eq!(&buf[20..24], &[9, 9, 9, 9]);
    assert_eq!(pixel(&buf, 12, 1, 1), RED);
}

#[test]
fn screen_is_cleared() {
    let mut buf = vec![9u8; 18];
    let mut gfx = Graphics::new(&mut buf, 2, 2, 8);
    gfx.clear_screen(BLUE);
    for y in 0..2 {
        for x in 0..2 {
            assert_eq!(pixel(&buf, 8, x, y), BLUE);
        }
    }
    assert_eq!(&buf[16..], &[9, 9]);
}

#[test]
fn last_rectangle_is_on_top() {
    let mut buf = vec![0u8; 4 * 4 * 4];
    let mut gfx = Graphics::new(&mut buf, 4, 4, 16);
    gfx.fill_rect(0, 0, 3, 3, RED);
    gfx.fill_rect(1, 1, 3, 3, BLUE);
    assert_eq!(pixel(&buf, 16, 0, 0), RED);
    assert_eq!(pixel(&buf, 16, 2, 2), BLUE);
    assert_eq!(pixel(&buf, 16, 3, 3), BLUE);
    assert_eq!(pixel(&buf, 16, 3, 0), [0; 4]);
}

#[test]
fn backbuffer_is_zero() {
    let buffer = Graphics::create_backbuffer(3, 5, 12);
    assert_eq!(buffer.len(), 60);
    assert!(buffer.iter().all(|byte| *byte == 0));
}

fn fill(buf: &mut [u8], rects: &[(usize, usize, usize, usize)], color: [u8; 4]) {
    let mut gfx = Graphics::new(buf, 4, 4, 20);
    for (x, y, w, h) in rects {
        gfx.fill_rect(*x, *y, *w, *h, color);
    }
}

#[test]
fn bytes_after_the_rows_are_left_alone() {
    let mut buf = vec![9u8; 4 * 20 + 3];
    fill(&mut buf, &[(0, 0, 10, 10)], RED);
    for y in 0..4 {
        assert_eq!(&buf[20 * y + 16..20 * y + 20], &[9, 9, 9, 9]);
    }
    assert_eq!(&buf[80..], &[9, 9, 9]);
}

#[test]
fn rectangle_can_be_split_and_repeated() {
    let mut whole = vec![9u8; 4 * 20];
    fill(&mut whole, &[(1, 0, 3, 3)], RED);
    let mut side_by_side = vec![9u8; 4 * 20];
    fill(&mut side_by_side, &[(1, 0, 1, 3), (2, 0, 2, 3)], RED);
    assert_eq!(whole, side_by_side);
    let mut stacked = vec![9u8; 4 * 20];
    fill(&mut stacked, &[(1, 0, 3, 2), (1, 2, 3, 1)], RED);
    assert_eq!(whole, stacked);
    let mut covered = vec![9u8; 4 * 20];
    fill(&mut covered, &[(2, 1, 1, 1)], BLUE);
    fill(&mut covered, &[(1, 0, 3, 3), (1, 0, 3, 3)], RED);
    assert_eq!(whole, covered);
}

#[test]
fn clearing_is_a_full_fill() {
    let mut cleared = vec![9u8; 4 * 4 * 4];
    let mut gfx = Graphics::new(&mut cleared, 4, 4, 16);
    gfx.clear_screen(BLUE);
    gfx.clear_screen(RED);
    let mut filled = vec![9u8; 4 * 4 * 4];
    let mut gfx = Graphics::new(&mut filled, 4, 4, 16);
    gfx.fill_rect(0, 0, 4, 4, RED);
    assert_eq!(cleared, filled);
}
