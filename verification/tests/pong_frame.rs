use d3os_virtio::error::Error;
use d3os_virtio::perf::CounterReport;
use d3os_virtio::pong::{Ball, Game, SCANCODE_W};
use d3os_virtio::pong_frame::{FrameReport, FrameTask, PongLoop, DELTA_TIME, MACHINE_SPEED};

fn go_on(pong: &mut PongLoop, report: FrameReport) -> Option<CounterReport> {
    assert!(pong.accepts(&report));
    pong.resume(report)
}

fn flown(ball_x: usize, ball_y: usize) -> FrameReport {
    FrameReport::Flown { ball_x, ball_y, below: true, paddle_y: 216 }
}

#[test]
fn time_step_is_that_of_sixty_frames_per_second() {
    let frame_time_ms: f32 = 16.666;
    assert_eq!(DELTA_TIME, (frame_time_ms / 1000.0).to_bits());
    assert_eq!(MACHINE_SPEED, 400);
}

#[test]
fn frame_goes_from_poll_to_sleep() {
    let mut pong = PongLoop::new(640, 480, 1000);
    assert_eq!(pong.game, Game::new(640, 480));
    assert_eq!(pong.task(), FrameTask::ReadClock);
    go_on(&mut pong, FrameReport::Time { now: 1000 });
    assert_eq!(pong.task(), FrameTask::PollKeyboard);
    go_on(&mut pong, FrameReport::Key { code: Some(SCANCODE_W) });
    assert_eq!(
        pong.task(),
        FrameTask::Fly { delta_time: DELTA_TIME, machine_speed: 400 }
    );
    go_on(&mut pong, flown(333, 249));
    assert_eq!(pong.game.ball, Ball { x: 333, y: 249, size: 10, vx: 800, vy: 600 });
    assert_eq!((pong.game.paddle1.y, pong.game.paddle2.y), (200, 216));
    assert!(!pong.served);
    assert_eq!(pong.task(), FrameTask::ReadClock);
    go_on(&mut pong, FrameReport::Time { now: 1002 });
    assert_eq!(pong.task(), FrameTask::Draw);
    go_on(&mut pong, FrameReport::Drawn);
    assert_eq!(pong.task(), FrameTask::Flush);
    go_on(&mut pong, FrameReport::Flushed { result: Ok(()) });
    assert_eq!(pong.task(), FrameTask::ReadClock);
    go_on(&mut pong, FrameReport::Time { now: 1006 });
    assert_eq!(go_on(&mut pong, FrameReport::Time { now: 1006 }), None);
    go_on(&mut pong, FrameReport::Time { now: 1007 });
    assert_eq!(pong.task(), FrameTask::Sleep { ms: 9 });
    go_on(&mut pong, FrameReport::Slept);

    // A long frame, without a key and with a point.
    go_on(&mut pong, FrameReport::Time { now: 1016 });
    go_on(&mut pong, FrameReport::Key { code: None });
    go_on(&mut pong, flown(0, 249));
    assert!(pong.served);
    assert_eq!((pong.game.score1, pong.game.score2), (0, 1));
    assert_eq!(pong.game.paddle1.y, 190);
    go_on(&mut pong, FrameReport::Time { now: 1020 });
    go_on(&mut pong, FrameReport::Drawn);
    go_on(&mut pong, FrameReport::Flushed { result: Ok(()) });
    go_on(&mut pong, FrameReport::Time { now: 31_000 });
    assert_eq!(
        go_on(&mut pong, FrameReport::Time { now: 31_000 }),
        Some(CounterReport {
            frame_count: 2,
            total_render_time_ms: 4 + 29_980,
            elapsed_ms: 30_000,
        })
    );
    go_on(&mut pong, FrameReport::Time { now: 31_001 });
    assert_eq!(pong.task(), FrameTask::ReadClock);
    go_on(&mut pong, FrameReport::Time { now: 31_001 });
    assert_eq!(pong.task(), FrameTask::PollKeyboard);
}

#[test]
fn failed_flush_ends_the_game() {
    let mut pong = PongLoop::new(640, 480, 0);
    go_on(&mut pong, FrameReport::Time { now: 0 });
    go_on(&mut pong, FrameReport::Key { code: None });
    go_on(&mut pong, flown(333, 249));
    go_on(&mut pong, FrameReport::Time { now: 0 });
    go_on(&mut pong, FrameReport::Drawn);
    go_on(&mut pong, FrameReport::Flushed { result: Err(Error::IoError) });
    assert_eq!(pong.task(), FrameTask::Fail { error: Error::IoError });
    assert!(!pong.accepts(&FrameReport::Slept));
    assert!(!pong.accepts(&FrameReport::Time { now: 0 }));
}

#[test]
fn only_reports_on_the_task_are_accepted() {
    let mut pong = PongLoop::new(640, 480, 0);
    assert!(!pong.accepts(&FrameReport::Drawn));
    assert!(!pong.accepts(&FrameReport::Key { code: None }));
    go_on(&mut pong, FrameReport::Time { now: 0 });
    go_on(&mut pong, FrameReport::Key { code: None });
    assert!(!pong.accepts(&flown(usize::MAX, 0)));
    // The ball is below, but the paddle would go up.
    assert!(!pong.accepts(&FrameReport::Flown {
        ball_x: 1,
        ball_y: 1,
        below: true,
        paddle_y: 209,
    }));
    go_on(&mut pong, flown(333, 249));
    go_on(&mut pong, FrameReport::Time { now: isize::MAX });
    go_on(&mut pong, FrameReport::Drawn);
    go_on(&mut pong, FrameReport::Flushed { result: Ok(()) });
    go_on(&mut pong, FrameReport::Time { now: isize::MIN });
    assert!(!pong.accepts(&FrameReport::Time { now: 0 }));
}
