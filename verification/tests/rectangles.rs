use d3os_virtio::rectangles::{
    bounce_axis, draw_frame, spawn, spawn_all, update_rects, Bounce, Flight, MovingRect,
};
use d3os_virtio::renderer::Graphics;

#[test]
fn rectangles_are_spawned() {
    assert_eq!(
        spawn(0, 640, 480),
        MovingRect {
            x: 0,
            y: 0,
            width: 50,
            height: 30,
            vx: 100,
            vy: 120,
            color: [255, 0, 0, 255],
        }
    );
    assert_eq!(
        spawn(23, 640, 480),
        MovingRect {
            x: (23 * 37) % 590,
            y: (23 * 53) % 450,
            width: 50,
            height: 30,
            vx: -400,
            vy: -400,
            color: [255, 255, 0, 255],
        }
    );
    assert_eq!(spawn(5, 640, 480).vy, -240);
    assert_eq!(spawn(15, 640, 480).vy, 400);
}

#[test]
fn five_hundred_rectangles_start_inside() {
    let rects = spawn_all(100, 60);
    assert_eq!(rects.len(), 500);
    assert_eq!(rects[23], spawn(23, 100, 60));
    for rect in &rects {
        assert!(rect.x + rect.width < 100 && rect.y + rect.height < 60);
    }
}

#[test]
fn edges_turn_rectangles_back() {
    assert_eq!(
        bounce_axis(true, false, 640, 50, -300),
        Bounce { place: Some(0), velocity: 300 }
    );
    assert_eq!(
        bounce_axis(false, true, 640, 50, 300),
        Bounce { place: Some(590), velocity: -300 }
    );
    assert_eq!(
        bounce_axis(false, true, 640, 50, -300),
        Bounce { place: Some(590), velocity: -300 }
    );
    assert_eq!(bounce_axis(false, true, 40, 50, 300), Bounce { place: Some(0), velocity: -300 });
    assert_eq!(bounce_axis(true, true, 40, 50, -300), Bounce { place: Some(0), velocity: 300 });
    assert_eq!(bounce_axis(false, false, 640, 50, 300), Bounce { place: None, velocity: 300 });
}

#[test]
fn frame_shows_the_rectangles_in_order() {
    let mut rects = vec![spawn(0, 640, 480), spawn(1, 640, 480)];
    rects[1].x = 40;
    rects[1].y = 20;
    let mut buf = vec![7u8; 640 * 480 * 4];
    let mut gfx = Graphics::new(&mut buf, 640, 480, 640 * 4);
    draw_frame(&mut gfx, &rects);
    let at = |x: usize, y: usize| {
        let i = 4 * (640 * y + x);
        [buf[i], buf[i + 1], buf[i + 2], buf[i + 3]]
    };
    assert_eq!(at(0, 0), [255, 0, 0, 255]);
    assert_eq!(at(45, 25), [0, 255, 0, 255]);
    assert_eq!(at(89, 49), [0, 255, 0, 255]);
    assert_eq!(at(90, 50), [0, 0, 0, 255]);
}

#[test]
fn rectangles_land_where_they_flew_or_at_the_edge() {
    let free = Flight {
        x: 7,
        y: 8,
        at_left: false,
        at_right: false,
        at_top: false,
        at_bottom: false,
    };
    let mut rects = vec![spawn(0, 640, 480), spawn(1, 640, 480)];
    let flights = vec![free, Flight { x: 0, at_left: true, at_bottom: true, ..free }];
    update_rects(&mut rects, &flights, 640, 480);
    assert_eq!(rects[0], MovingRect { x: 7, y: 8, ..spawn(0, 640, 480) });
    assert_eq!(
        rects[1],
        MovingRect { x: 0, y: 450, vx: 200, vy: -120, ..spawn(1, 640, 480) }
    );
}

#[test]
fn rectangles_are_on_the_screen_after_it_shrank() {
    let mut rects = spawn_all(640, 480);
    let flights: Vec<Flight> = rects
        .iter()
        .map(|rect| Flight {
            x: rect.x,
            y: rect.y,
            at_left: rect.x == 0,
            at_right: rect.x + rect.width >= 100,
            at_top: rect.y == 0,
            at_bottom: rect.y + rect.height >= 60,
        })
        .collect();
    update_rects(&mut rects, &flights, 100, 60);
    for (i, rect) in rects.iter().enumerate() {
        assert!(rect.x + rect.width <= 100 && rect.y + rect.height <= 60);
        assert_eq!(rect.vx.abs(), spawn(i, 640, 480).vx.abs());
        assert_eq!(rect.vy.abs(), spawn(i, 640, 480).vy.abs());
    }
}

#[test]
fn rectangles_leave_the_edges_frame_after_frame() {
    let mut rects = spawn_all(100, 60);
    for frame in 0..20 {
        let (width, height) = if frame < 10 { (100, 60) } else { (80, 70) };
        let flights: Vec<Flight> = rects
            .iter()
            .map(|rect| {
                let x = rect.x as i32 + rect.vx / 60;
                let y = rect.y as i32 + rect.vy / 60;
                Flight {
                    x: x.max(0) as usize,
                    y: y.max(0) as usize,
                    at_left: x <= 0,
                    at_right: x + 50 >= width as i32,
                    at_top: y <= 0,
                    at_bottom: y + 30 >= height as i32,
                }
            })
            .collect();
        update_rects(&mut rects, &flights, width, height);
        for (rect, flight) in rects.iter().zip(&flights) {
            assert!(rect.x + rect.width <= width && rect.y + rect.height <= height);
            assert!(!flight.at_left || (rect.x == 0 && rect.vx > 0));
            assert!(!flight.at_top || (rect.y == 0 && rect.vy > 0));
            assert!(rect.x + rect.width < width || rect.vx < 0);
            assert!(rect.y + rect.height < height || rect.vy < 0);
        }
    }
}
