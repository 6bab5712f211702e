use d3os_virtio::error::Error;
use d3os_virtio::perf::PerfReport;
use d3os_virtio::rect_frame::{RectLoop, RectReport, RectTask, DELTA_TIME};
use d3os_virtio::rectangles::{spawn_all, Flight};

fn go_on(demo: &mut RectLoop, report: RectReport) -> Option<PerfReport> {
    assert!(demo.accepts(&report));
    demo.resume(report)
}

fn time(now: isize) -> RectReport {
    RectReport::Time { now }
}

fn opened(width: u32, height: u32) -> RectLoop {
    let mut demo = RectLoop::new();
    assert_eq!(demo.task(), RectTask::FetchResolution);
    go_on(&mut demo, RectReport::Resolution { size: Ok((width, height)) });
    assert_eq!(demo.task(), RectTask::SetUpFramebuffer);
    let len = 4 * width as usize * height as usize;
    go_on(&mut demo, RectReport::Framebuffer { len: Ok(len) });
    assert_eq!(demo.task(), RectTask::ReadClock);
    go_on(&mut demo, time(1000));
    demo
}

/// Each rectangle flies to the right edge if `far`, and to the middle of the screen otherwise.
fn flown(demo: &RectLoop, far: bool) -> RectReport {
    let flight = Flight {
        x: if far { demo.width } else { demo.width / 2 },
        y: 1,
        at_left: false,
        at_right: far,
        at_top: false,
        at_bottom: false,
    };
    RectReport::Flown { flights: vec![flight; demo.rects.len()] }
}

fn frame(demo: &mut RectLoop, start: isize, rendered: isize) -> Option<PerfReport> {
    go_on(demo, RectReport::Config { pending: false });
    go_on(demo, time(start));
    let flights = flown(demo, false);
    go_on(demo, flights);
    go_on(demo, RectReport::Drawn);
    go_on(demo, time(start));
    go_on(demo, RectReport::Flushed { result: Ok(()) });
    go_on(demo, time(rendered));
    go_on(demo, time(rendered))
}

#[test]
fn time_step_of_the_rectangles_is_that_of_sixty_frames_per_second() {
    let frame_time_ms: f32 = 16.67;
    assert_eq!(DELTA_TIME, (frame_time_ms / 1000.0).to_bits());
}

#[test]
fn frame_goes_from_check_to_sleep() {
    let mut demo = opened(640, 480);
    assert_eq!(demo.rects, spawn_all(640, 480));
    assert_eq!((demo.width, demo.height, demo.len), (640, 480, 1_228_800));
    assert_eq!(demo.task(), RectTask::PollConfig);
    go_on(&mut demo, RectReport::Config { pending: false });
    assert_eq!(demo.task(), RectTask::ReadClock);
    go_on(&mut demo, time(1001));
    assert_eq!(demo.task(), RectTask::Fly { delta_time: DELTA_TIME });
    let report = flown(&demo, true);
    go_on(&mut demo, report);
    for (i, rect) in demo.rects.iter().enumerate() {
        assert_eq!((rect.x, rect.y), (590, 1));
        assert_eq!(rect.vx, -100 * (i as i32 % 5 + 1));
    }
    assert_eq!(demo.task(), RectTask::Draw);
    assert!(demo.can_draw());
    go_on(&mut demo, RectReport::Drawn);
    assert_eq!(demo.task(), RectTask::ReadClock);
    go_on(&mut demo, time(1003));
    assert_eq!(demo.task(), RectTask::Flush);
    go_on(&mut demo, RectReport::Flushed { result: Ok(()) });
    assert_eq!(demo.task(), RectTask::ReadClock);
    go_on(&mut demo, time(1008));
    assert_eq!(go_on(&mut demo, time(1008)), None);
    go_on(&mut demo, time(1009));
    assert_eq!(demo.task(), RectTask::Sleep { ms: 8 });
    go_on(&mut demo, RectReport::Slept);
    assert_eq!(demo.task(), RectTask::PollConfig);
}

#[test]
fn frames_are_reported_every_half_minute() {
    let mut demo = opened(640, 480);
    assert_eq!(frame(&mut demo, 1000, 1007), None);
    // A frame that took its time is followed by the next.
    go_on(&mut demo, time(1016));
    assert_eq!(demo.task(), RectTask::PollConfig);
    assert_eq!(frame(&mut demo, 1016, 1019), None);
    go_on(&mut demo, time(1040));
    let report = PerfReport { count: 3, sum: 15, min_render: 3, max_render: 7, p95_render: 7 };
    assert_eq!(frame(&mut demo, 30_995, 31_000), Some(report));
    go_on(&mut demo, time(31_020));
    assert_eq!(frame(&mut demo, 31_020, 60_999), None);
}

#[test]
fn resize_comes_before_the_frame() {
    let mut demo = opened(640, 480);
    go_on(&mut demo, RectReport::Config { pending: true });
    assert_eq!(demo.task(), RectTask::FetchResolution);
    assert!(!demo.accepts(&time(0)));
    assert!(!demo.accepts(&flown(&demo, false)));
    go_on(&mut demo, RectReport::Resolution { size: Ok((40, 20)) });
    assert_eq!(demo.task(), RectTask::SetUpFramebuffer);
    assert!(!demo.accepts(&RectReport::Drawn));
    go_on(&mut demo, RectReport::Framebuffer { len: Ok(3200) });
    assert_eq!((demo.width, demo.height, demo.len), (40, 20, 3200));
    assert_eq!(demo.rects, spawn_all(640, 480));
    assert_eq!(demo.task(), RectTask::ReadClock);
    go_on(&mut demo, time(0));
    let report = flown(&demo, true);
    go_on(&mut demo, report);
    assert!(demo.rects.iter().all(|rect| rect.x == 0 && rect.vx < 0));
    assert!(demo.can_draw());
}

#[test]
fn framebuffer_may_be_too_small() {
    let mut demo = opened(640, 480);
    go_on(&mut demo, RectReport::Config { pending: true });
    go_on(&mut demo, RectReport::Resolution { size: Ok((640, 480)) });
    // The rectangles are drawn down to row 30, up to column 370.
    go_on(&mut demo, RectReport::Framebuffer { len: Ok(30 * 2560 + 4 * 370) });
    go_on(&mut demo, time(0));
    let report = flown(&demo, false);
    go_on(&mut demo, report);
    assert!(demo.can_draw());
    demo.len -= 1;
    assert!(!demo.can_draw());
}

#[test]
fn first_failure_ends_the_animation() {
    let mut demo = RectLoop::new();
    go_on(&mut demo, RectReport::Resolution { size: Err(Error::IoError) });
    assert_eq!(demo.task(), RectTask::Fail { error: Error::IoError });

    let mut demo = RectLoop::new();
    go_on(&mut demo, RectReport::Resolution { size: Ok((640, 480)) });
    go_on(&mut demo, RectReport::Framebuffer { len: Err(Error::DmaError) });
    assert_eq!(demo.task(), RectTask::Fail { error: Error::DmaError });

    let mut demo = opened(640, 480);
    frame(&mut demo, 1000, 1001);
    go_on(&mut demo, time(1016));
    go_on(&mut demo, RectReport::Config { pending: false });
    go_on(&mut demo, time(1016));
    let report = flown(&demo, false);
    go_on(&mut demo, report);
    go_on(&mut demo, RectReport::Drawn);
    go_on(&mut demo, time(1017));
    go_on(&mut demo, RectReport::Flushed { result: Err(Error::QueueError) });
    assert_eq!(demo.task(), RectTask::Fail { error: Error::QueueError });
    assert!(!demo.accepts(&time(1018)));
    assert!(!demo.accepts(&RectReport::Slept));
    assert!(!demo.accepts(&RectReport::Flushed { result: Ok(()) }));
}

#[test]
fn only_reports_on_the_task_of_the_animation_are_accepted() {
    let mut demo = RectLoop::new();
    assert!(!demo.accepts(&RectReport::Config { pending: false }));
    assert!(!demo.accepts(&RectReport::Framebuffer { len: Ok(0) }));
    go_on(&mut demo, RectReport::Resolution { size: Ok((50, 480)) });
    // The screen must be larger than a rectangle.
    assert!(!demo.accepts(&RectReport::Framebuffer { len: Ok(96_000) }));
    let mut demo = opened(640, 480);
    go_on(&mut demo, RectReport::Config { pending: false });
    go_on(&mut demo, time(isize::MAX));
    assert!(!demo.accepts(&RectReport::Flown { flights: Vec::new() }));
    let report = flown(&demo, false);
    go_on(&mut demo, report);
    go_on(&mut demo, RectReport::Drawn);
    go_on(&mut demo, time(isize::MAX));
    go_on(&mut demo, RectReport::Flushed { result: Ok(()) });
    go_on(&mut demo, time(isize::MIN));
    assert!(!demo.accepts(&time(0)));
}
