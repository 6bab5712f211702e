//! The course of the rectangle animation, frame by frame: look for a change of the display,
//! move the rectangles, draw, flush, log, and sleep for the rest of the frame's time.
//!
//! [`RectLoop`] says what to do next; whoever runs it does so and reports what came of it.

use crate::error::Error;
use crate::perf;
use crate::perf::{fits, sleep_time, span_representable, FrameLog, FrameLogState, PerfReport};
use crate::pong_frame::once_if;
use crate::rectangles;
use crate::rectangles::{
    spawn_all, update_rects, Flight, Frame, MovingRect, RECT_COUNT, RECT_H, RECT_W,
};
use crate::renderer;
use vstd::prelude::*;

verus! {

/// The time step of a frame in seconds, 0.01667 in single precision.
pub const DELTA_TIME: u32 = 0x3c88_8f86;

/// What is to be done next.
#[derive(Clone, Copy, Debug, PartialEq, Eq, Structural)]
pub enum RectTask {
    /// Ask the GPU for the resolution.
    FetchResolution,
    /// Let the GPU set up a framebuffer.
    SetUpFramebuffer,
    /// Read the system time.
    ReadClock,
    /// Look whether the display has changed, and take note of it.
    PollConfig,
    /// Move the rectangles by their velocities for the time step.
    Fly { delta_time: u32 },
    /// Draw the rectangles.
    Draw,
    /// Flush the framebuffer.
    Flush,
    /// Sleep.
    Sleep { ms: usize },
    /// Give up.
    Fail { error: Error },
}

/// What came of a task.
#[derive(Debug, PartialEq, Eq)]
pub enum RectReport {
    /// The width and the height of the display, or why there are none.
    Resolution { size: Result<(u32, u32), Error> },
    /// The length of the framebuffer, or why there is none.
    Framebuffer { len: Result<usize, Error> },
    /// The system time.
    Time { now: isize },
    /// Whether the display has changed.
    Config { pending: bool },
    /// Where the rectangles have flown.
    Flown { flights: Vec<Flight> },
    /// The rectangles are drawn.
    Drawn,
    /// The framebuffer is flushed, or that failed.
    Flushed { result: Result<(), Error> },
    /// The time is over.
    Slept,
}

/// The stage of the animation.
#[derive(Clone, Copy, Debug, PartialEq, Eq, Structural)]
pub enum RectStage {
    Opening,
    OpeningBuffer { width: usize, height: usize },
    Spawned,
    Checking,
    Resizing,
    ResizingBuffer { width: usize, height: usize },
    Starting,
    Flying { frame_start: isize },
    Drawing { frame_start: isize },
    Drawn { frame_start: isize },
    Flushing { frame_start: isize, render_start: isize },
    Rendered { frame_start: isize, render_start: isize },
    Counting { frame_start: isize, render_start: isize, render_end: isize },
    Ending { frame_start: isize },
    Sleeping { ms: usize },
    Failed { error: Error },
}

/// An animation that is under way.
pub struct RectLoop {
    pub stage: RectStage,
    pub rects: Vec<MovingRect>,
    pub log: FrameLog,
    pub width: usize,
    pub height: usize,
    /// The length of the framebuffer.
    pub len: usize,
}

/// What is known of an animation.
pub ghost struct RectState {
    pub stage: RectStage,
    pub rects: Seq<MovingRect>,
    pub log: FrameLogState,
    pub width: usize,
    pub height: usize,
    pub len: usize,
}

/// A rectangle has the size, the color and the speeds of the rectangle with the given number.
pub open spec fn of_number(rect: MovingRect, i: int) -> bool {
    &&& rect.width == RECT_W && rect.height == RECT_H
    &&& rect.color == rectangles::COLORS@[i % 20]
    &&& rect.vx == rectangles::speed_across(i) || rect.vx == -rectangles::speed_across(i)
    &&& rect.vy == rectangles::speed_down(i) || rect.vy == -rectangles::speed_down(i)
}

/// A frame can be logged.
pub open spec fn loggable(
    log: FrameLogState,
    render_start: isize,
    render_end: isize,
    now: isize,
) -> bool {
    span_representable(render_start, render_end) && span_representable(log.last_log_time, now)
}

/// A log after one more frame.
pub open spec fn logged(
    log: FrameLogState,
    render_start: isize,
    render_end: isize,
    now: isize,
) -> FrameLogState {
    FrameLogState {
        window: perf::window_after(log.window, render_end - render_start),
        last_log_time: if now - log.last_log_time >= perf::LOG_INTERVAL_MS {
            now
        } else {
            log.last_log_time
        },
    }
}

impl RectState {
    /// An animation that has not begun.
    pub open spec fn initial() -> RectState {
        RectState {
            stage: RectStage::Opening,
            rects: Seq::empty(),
            log: FrameLogState { window: Seq::empty(), last_log_time: 0 },
            width: 0,
            height: 0,
            len: 0,
        }
    }

    /// The screen has been opened.
    pub open spec fn opened(self) -> bool {
        self.rects.len() > 0
    }

    /// What holds all the time: there are no rectangles before the screen is opened and all of
    /// them from then on, and none ever changes its size, its color or its speeds.
    pub open spec fn wf(self) -> bool {
        &&& self.width <= u32::MAX && self.height <= u32::MAX && 4 * self.width <= usize::MAX
        &&& match self.stage {
            RectStage::Opening => self.rects.len() == 0,
            RectStage::OpeningBuffer { width, height } => self.rects.len() == 0 && width
                <= u32::MAX && height <= u32::MAX,
            RectStage::ResizingBuffer { width, height } => self.rects.len() == RECT_COUNT
                && width <= u32::MAX && height <= u32::MAX,
            RectStage::Failed { .. } => self.rects.len() == 0 || self.rects.len() == RECT_COUNT,
            _ => self.rects.len() == RECT_COUNT,
        }
        &&& forall|i: int| 0 <= i < self.rects.len() ==> of_number(#[trigger] self.rects[i], i)
    }

    /// What is to be done at this stage.
    pub open spec fn asks(self) -> RectTask {
        match self.stage {
            RectStage::Opening | RectStage::Resizing => RectTask::FetchResolution,
            RectStage::OpeningBuffer { .. }
            | RectStage::ResizingBuffer { .. } => RectTask::SetUpFramebuffer,
            RectStage::Checking => RectTask::PollConfig,
            RectStage::Flying { .. } => RectTask::Fly { delta_time: DELTA_TIME },
            RectStage::Drawing { .. } => RectTask::Draw,
            RectStage::Flushing { .. } => RectTask::Flush,
            RectStage::Sleeping { ms } => RectTask::Sleep { ms },
            RectStage::Failed { error } => RectTask::Fail { error },
            _ => RectTask::ReadClock,
        }
    }

    /// The report is one on the task, and what follows from it can be represented. The screen
    /// that the rectangles are created on is larger than a rectangle.
    pub open spec fn takes(self, report: RectReport) -> bool {
        match report {
            RectReport::Resolution { .. } => self.stage is Opening || self.stage is Resizing,
            RectReport::Framebuffer { len } => match self.stage {
                RectStage::OpeningBuffer { width, height } => len is Ok ==> width > RECT_W
                    && height > RECT_H && 4 * width <= usize::MAX,
                RectStage::ResizingBuffer { width, .. } => len is Ok ==> 4 * width
                    <= usize::MAX,
                _ => false,
            },
            RectReport::Time { now } => match self.stage {
                RectStage::Spawned
                | RectStage::Starting
                | RectStage::Drawn { .. }
                | RectStage::Rendered { .. } => true,
                RectStage::Counting { render_start, render_end, .. } => loggable(
                    self.log,
                    render_start,
                    render_end,
                    now,
                ),
                RectStage::Ending { frame_start } => span_representable(frame_start, now)
                    && perf::FRAME_TIME_MS - (now - frame_start) <= isize::MAX,
                _ => false,
            },
            RectReport::Config { .. } => self.stage is Checking,
            RectReport::Flown { flights } => self.stage is Flying && flights@.len()
                == self.rects.len(),
            RectReport::Drawn => self.stage is Drawing,
            RectReport::Flushed { .. } => self.stage is Flushing,
            RectReport::Slept => self.stage is Sleeping,
        }
    }

    /// The same animation at another stage.
    pub open spec fn at(self, stage: RectStage) -> RectState {
        RectState { stage, ..self }
    }

    /// The state after a report.
    pub open spec fn react(self, report: RectReport) -> RectState {
        match report {
            RectReport::Resolution { size } => match size {
                Ok(extent) => {
                    let width = extent.0 as usize;
                    let height = extent.1 as usize;
                    match self.stage {
                        RectStage::Opening => self.at(RectStage::OpeningBuffer { width, height }),
                        RectStage::Resizing => self.at(
                            RectStage::ResizingBuffer { width, height },
                        ),
                        _ => self,
                    }
                },
                Err(error) => self.at(RectStage::Failed { error }),
            },
            RectReport::Framebuffer { len } => match len {
                Ok(len) => match self.stage {
                    RectStage::OpeningBuffer { width, height } => RectState {
                        stage: RectStage::Spawned,
                        rects: rectangles::all_spawned(width as int, height as int),
                        width,
                        height,
                        len,
                        ..self
                    },
                    RectStage::ResizingBuffer { width, height } => RectState {
                        stage: RectStage::Starting,
                        width,
                        height,
                        len,
                        ..self
                    },
                    _ => self,
                },
                Err(error) => self.at(RectStage::Failed { error }),
            },
            RectReport::Time { now } => match self.stage {
                RectStage::Spawned => RectState {
                    stage: RectStage::Checking,
                    log: FrameLogState { window: Seq::empty(), last_log_time: now },
                    ..self
                },
                RectStage::Starting => self.at(RectStage::Flying { frame_start: now }),
                RectStage::Drawn { frame_start } => self.at(
                    RectStage::Flushing { frame_start, render_start: now },
                ),
                RectStage::Rendered { frame_start, render_start } => self.at(
                    RectStage::Counting { frame_start, render_start, render_end: now },
                ),
                RectStage::Counting { frame_start, render_start, render_end } => RectState {
                    stage: RectStage::Ending { frame_start },
                    log: logged(self.log, render_start, render_end, now),
                    ..self
                },
                RectStage::Ending { frame_start } => if now - frame_start < perf::FRAME_TIME_MS {
                    self.at(
                        RectStage::Sleeping {
                            ms: (perf::FRAME_TIME_MS - (now - frame_start)) as usize,
                        },
                    )
                } else {
                    self.at(RectStage::Checking)
                },
                _ => self,
            },
            RectReport::Config { pending } => if pending {
                self.at(RectStage::Resizing)
            } else {
                self.at(RectStage::Starting)
            },
            RectReport::Flown { flights } => match self.stage {
                RectStage::Flying { frame_start } => RectState {
                    stage: RectStage::Drawing { frame_start },
                    rects: rectangles::all_landed(
                        self.rects,
                        flights@,
                        self.width as int,
                        self.height as int,
                    ),
                    ..self
                },
                _ => self,
            },
            RectReport::Drawn => match self.stage {
                RectStage::Drawing { frame_start } => self.at(RectStage::Drawn { frame_start }),
                _ => self,
            },
            RectReport::Flushed { result } => match self.stage {
                RectStage::Flushing { frame_start, render_start } => match result {
                    Ok(_) => self.at(RectStage::Rendered { frame_start, render_start }),
                    Err(error) => self.at(RectStage::Failed { error }),
                },
                _ => self,
            },
            RectReport::Slept => self.at(RectStage::Checking),
        }
    }

    /// What is told of the frames when a report is taken.
    pub open spec fn tells(self, report: RectReport) -> Option<PerfReport> {
        match (self.stage, report) {
            (
                RectStage::Counting { render_start, render_end, .. },
                RectReport::Time { now },
            ) => if now - self.log.last_log_time >= perf::LOG_INTERVAL_MS {
                Some(perf::report_of(logged(self.log, render_start, render_end, now).window))
            } else {
                None
            },
            _ => None,
        }
    }

    /// The rectangles can be drawn without leaving the framebuffer.
    pub open spec fn drawable(self) -> bool {
        renderer::all_fit(
            self.len as int,
            self.width as int,
            self.height as int,
            4 * self.width as int,
            rectangles::rect_fills(self.rects),
        )
    }
}

impl View for RectLoop {
    type V = RectState;

    open spec fn view(&self) -> RectState {
        RectState {
            stage: self.stage,
            rects: self.rects@,
            log: self.log@,
            width: self.width,
            height: self.height,
            len: self.len,
        }
    }
}

impl RectLoop {
    /// What holds all the time.
    pub open spec fn wf(&self) -> bool {
        self.log.wf() && self@.wf()
    }

    /// An animation that has not begun.
    pub fn new() -> (demo: RectLoop)
        ensures
            demo@ == RectState::initial(),
            demo.wf(),
    {
        RectLoop {
            stage: RectStage::Opening,
            rects: Vec::new(),
            log: FrameLog::new(0),
            width: 0,
            height: 0,
            len: 0,
        }
    }

    /// What is to be done next.
    pub fn task(&self) -> (task: RectTask)
        ensures
            task == self@.asks(),
    {
        match self.stage {
            RectStage::Opening | RectStage::Resizing => RectTask::FetchResolution,
            RectStage::OpeningBuffer { .. }
            | RectStage::ResizingBuffer { .. } => RectTask::SetUpFramebuffer,
            RectStage::Checking => RectTask::PollConfig,
            RectStage::Flying { .. } => RectTask::Fly { delta_time: DELTA_TIME },
            RectStage::Drawing { .. } => RectTask::Draw,
            RectStage::Flushing { .. } => RectTask::Flush,
            RectStage::Sleeping { ms } => RectTask::Sleep { ms },
            RectStage::Failed { error } => RectTask::Fail { error },
            _ => RectTask::ReadClock,
        }
    }

    /// Whether the animation can go on after a report.
    pub fn accepts(&self, report: &RectReport) -> (accepted: bool)
        ensures
            accepted == self@.takes(*report),
    {
        match report {
            RectReport::Resolution { .. } => matches!(
                self.stage,
                RectStage::Opening | RectStage::Resizing
            ),
            RectReport::Framebuffer { len } => match self.stage {
                RectStage::OpeningBuffer { width, height } => len.is_err() || (width > RECT_W
                    && height > RECT_H && width <= usize::MAX / 4),
                RectStage::ResizingBuffer { width, .. } => len.is_err() || width <= usize::MAX
                    / 4,
                _ => false,
            },
            RectReport::Time { now } => match self.stage {
                RectStage::Spawned
                | RectStage::Starting
                | RectStage::Drawn { .. }
                | RectStage::Rendered { .. } => true,
                RectStage::Counting { render_start, render_end, .. } => {
                    let span: i128 = render_end as i128 - render_start as i128;
                    let elapsed: i128 = *now as i128 - self.log.last_log_time() as i128;
                    fits(span) && fits(elapsed)
                },
                RectStage::Ending { frame_start } => {
                    let elapsed: i128 = *now as i128 - frame_start as i128;
                    let left: i128 = perf::FRAME_TIME_MS as i128 - elapsed;
                    fits(elapsed) && left <= isize::MAX as i128
                },
                _ => false,
            },
            RectReport::Config { .. } => matches!(self.stage, RectStage::Checking),
            RectReport::Flown { flights } => matches!(self.stage, RectStage::Flying { .. })
                && flights.len() == self.rects.len(),
            RectReport::Drawn => matches!(self.stage, RectStage::Drawing { .. }),
            RectReport::Flushed { .. } => matches!(self.stage, RectStage::Flushing { .. }),
            RectReport::Slept => matches!(self.stage, RectStage::Sleeping { .. }),
        }
    }

    /// Whether the rectangles can be drawn without leaving the framebuffer.
    pub fn can_draw(&self) -> (fitting: bool)
        requires
            self.wf(),
        ensures
            fitting == self@.drawable(),
    {
        let ghost fills = rectangles::rect_fills(self.rects@);
        let mut i: usize = 0;
        while i < self.rects.len()
            invariant
                self.wf(),
                i <= self.rects@.len(),
                fills == rectangles::rect_fills(self.rects@),
                forall|k: int|
                    0 <= k < i ==> renderer::rect_fits(
                        self.len as int,
                        self.width as int,
                        self.height as int,
                        4 * self.width as int,
                        (#[trigger] fills[k]).x,
                        fills[k].y,
                        fills[k].w,
                        fills[k].h,
                    ),
            decreases self.rects@.len() - i,
        {
            assert(fills[i as int] == rectangles::rect_fill(self.rects@[i as int]));
            if !rect_is_inside(&self.rects[i], self.len, self.width, self.height) {
                return false;
            }
            i = i + 1;
        }
        true
    }

    /// Takes the report on the task. Now and then the result is a report on the frames.
    pub fn resume(&mut self, report: RectReport) -> (told: Option<PerfReport>)
        requires
            old(self).wf(),
            old(self)@.takes(report),
        ensures
            final(self)@ == old(self)@.react(report),
            told == old(self)@.tells(report),
            final(self).wf(),
    {
        proof {
            react_keeps_wf(self@, report);
        }
        let mut told: Option<PerfReport> = None;
        match report {
            RectReport::Resolution { size } => {
                self.stage =
                match size {
                    Ok(extent) => {
                        let width: usize = extent.0 as usize;
                        let height: usize = extent.1 as usize;
                        match self.stage {
                            RectStage::Opening => RectStage::OpeningBuffer { width, height },
                            _ => RectStage::ResizingBuffer { width, height },
                        }
                    },
                    Err(error) => RectStage::Failed { error },
                };
            },
            RectReport::Framebuffer { len } => match len {
                Ok(len) => match self.stage {
                    RectStage::OpeningBuffer { width, height } => {
                        self.stage = RectStage::Spawned;
                        self.rects = spawn_all(width, height);
                        self.width = width;
                        self.height = height;
                        self.len = len;
                    },
                    RectStage::ResizingBuffer { width, height } => {
                        self.stage = RectStage::Starting;
                        self.width = width;
                        self.height = height;
                        self.len = len;
                    },
                    _ => {},
                },
                Err(error) => {
                    self.stage = RectStage::Failed { error };
                },
            },
            RectReport::Time { now } => match self.stage {
                RectStage::Spawned => {
                    self.log = FrameLog::new(now);
                    self.stage = RectStage::Checking;
                },
                RectStage::Starting => {
                    self.stage = RectStage::Flying { frame_start: now };
                },
                RectStage::Drawn { frame_start } => {
                    self.stage = RectStage::Flushing { frame_start, render_start: now };
                },
                RectStage::Rendered { frame_start, render_start } => {
                    self.stage = RectStage::Counting { frame_start, render_start, render_end: now };
                },
                RectStage::Counting { frame_start, render_start, render_end } => {
                    told = self.log.frame(render_start, render_end, now);
                    self.stage = RectStage::Ending { frame_start };
                },
                RectStage::Ending { frame_start } => {
                    self.stage = match sleep_time(frame_start, now) {
                        Some(ms) => RectStage::Sleeping { ms },
                        None => RectStage::Checking,
                    };
                },
                _ => {},
            },
            RectReport::Config { pending } => {
                self.stage = if pending {
                    RectStage::Resizing
                } else {
                    RectStage::Starting
                };
            },
            RectReport::Flown { flights } => {
                if let RectStage::Flying { frame_start } = self.stage {
                    let width: usize = self.width;
                    let height: usize = self.height;
                    proof {
                        numbered_can_turn(self.rects@);
                    }
                    update_rects(&mut self.rects, &flights, width, height);
                    self.stage = RectStage::Drawing { frame_start };
                }
            },
            RectReport::Drawn => {
                if let RectStage::Drawing { frame_start } = self.stage {
                    self.stage = RectStage::Drawn { frame_start };
                }
            },
            RectReport::Flushed { result } => {
                if let RectStage::Flushing { frame_start, render_start } = self.stage {
                    self.stage = match result {
                        Ok(_) => RectStage::Rendered { frame_start, render_start },
                        Err(error) => RectStage::Failed { error },
                    };
                }
            },
            RectReport::Slept => {
                self.stage = RectStage::Checking;
            },
        }
        told
    }
}

/// Whether a rectangle can be drawn without leaving a framebuffer of `len` bytes.
fn rect_is_inside(rect: &MovingRect, len: usize, width: usize, height: usize) -> (inside: bool)
    requires
        width <= u32::MAX,
        height <= u32::MAX,
    ensures
        inside == renderer::rect_fits(
            len as int,
            width as int,
            height as int,
            4 * width as int,
            rect.x as int,
            rect.y as int,
            rect.width as int,
            rect.height as int,
        ),
{
    let cols: usize = if rect.x >= width {
        0
    } else if rect.width <= width - rect.x {
        rect.width
    } else {
        width - rect.x
    };
    let bottom: usize = rect.y.saturating_add(rect.height);
    let end: usize = if bottom <= height {
        bottom
    } else {
        height
    };
    if cols == 0 || rect.y >= end {
        return true;
    }
    let rows: u128 = (end - 1) as u128;
    let stride: u128 = 4 * (width as u128);
    assert(0 <= rows * stride <= 0x1_0000_0000 * 0x4_0000_0000) by (nonlinear_arith)
        requires
            0 <= rows <= 0x1_0000_0000,
            0 <= stride <= 0x4_0000_0000,
    ;
    rows * stride + 4 * ((rect.x + cols) as u128) <= len as u128
}

/// Rectangles that keep their speeds can be turned round.
proof fn numbered_can_turn(rects: Seq<MovingRect>)
    requires
        forall|i: int| 0 <= i < rects.len() ==> of_number(#[trigger] rects[i], i),
    ensures
        forall|i: int| 0 <= i < rects.len() ==> rectangles::turnable(#[trigger] rects[i]),
{
    assert forall|i: int| 0 <= i < rects.len() implies rectangles::turnable(#[trigger] rects[i]) by {
        assert(of_number(rects[i], i));
    }
}

/// Every report that is taken keeps the animation in order.
pub proof fn react_keeps_wf(demo: RectState, report: RectReport)
    requires
        demo.wf(),
        demo.takes(report),
    ensures
        demo.react(report).wf(),
{
    let after = demo.react(report);
    if let RectReport::Flown { flights } = report {
        numbered_can_turn(demo.rects);
        assert forall|i: int| 0 <= i < after.rects.len() implies of_number(
            #[trigger] after.rects[i],
            i,
        ) by {
            assert(of_number(demo.rects[i], i));
            rectangles::landing_keeps_rectangles(
                demo.rects[i],
                flights@[i],
                demo.width as int,
                demo.height as int,
            );
        }
    }
}

/// Opening takes its course: the resolution is fetched, a framebuffer is set up, the
/// rectangles are created for that resolution, and the log starts at the time that is read
/// then.
pub proof fn opening_takes_its_course(width: u32, height: u32, len: usize, now: isize)
    ensures
        ({
            let s0 = RectState::initial();
            let s1 = s0.react(RectReport::Resolution { size: Ok((width, height)) });
            let s2 = s1.react(RectReport::Framebuffer { len: Ok(len) });
            let s3 = s2.react(RectReport::Time { now });
            &&& s0.asks() is FetchResolution
            &&& s1.asks() is SetUpFramebuffer
            &&& s2.asks() is ReadClock
            &&& s3.asks() is PollConfig
            &&& s3 == (RectState {
                stage: RectStage::Checking,
                rects: rectangles::all_spawned(width as int, height as int),
                log: FrameLogState { window: Seq::empty(), last_log_time: now },
                width: width as usize,
                height: height as usize,
                len,
            })
        }),
{
}

/// A change of the display comes first: before anything is moved or drawn, the resolution is
/// fetched and then a new framebuffer is set up, and the frame starts with both of them.
/// Without a change the frame starts with what there is.
pub proof fn resize_comes_first(demo: RectState, width: u32, height: u32, len: usize)
    requires
        demo.stage is Checking,
    ensures
        ({
            let s1 = demo.react(RectReport::Config { pending: true });
            let s2 = s1.react(RectReport::Resolution { size: Ok((width, height)) });
            let s3 = s2.react(RectReport::Framebuffer { len: Ok(len) });
            &&& demo.asks() is PollConfig
            &&& s1.asks() is FetchResolution
            &&& s2.asks() is SetUpFramebuffer
            &&& s3 == (RectState {
                stage: RectStage::Starting,
                width: width as usize,
                height: height as usize,
                len,
                ..demo
            })
            &&& demo.react(RectReport::Config { pending: false }) == demo.at(RectStage::Starting)
        }),
{
}

/// A frame takes its course: every rectangle flies and lands, the rectangles are drawn, the
/// framebuffer is flushed, the frame is logged, and if it took less than its time, the rest
/// of it is slept. Then the display is looked at again.
pub proof fn frame_takes_its_course(
    demo: RectState,
    frame_start: isize,
    flights: Vec<Flight>,
    render_start: isize,
    render_end: isize,
    now: isize,
    frame_end: isize,
)
    requires
        demo.stage is Starting,
    ensures
        ({
            let s1 = demo.react(RectReport::Time { now: frame_start });
            let s2 = s1.react(RectReport::Flown { flights });
            let s3 = s2.react(RectReport::Drawn);
            let s4 = s3.react(RectReport::Time { now: render_start });
            let s5 = s4.react(RectReport::Flushed { result: Ok(()) });
            let s6 = s5.react(RectReport::Time { now: render_end });
            let s7 = s6.react(RectReport::Time { now });
            let s8 = s7.react(RectReport::Time { now: frame_end });
            let elapsed = frame_end - frame_start;
            let ended = RectState {
                stage: RectStage::Checking,
                rects: rectangles::all_landed(
                    demo.rects,
                    flights@,
                    demo.width as int,
                    demo.height as int,
                ),
                log: logged(demo.log, render_start, render_end, now),
                ..demo
            };
            &&& demo.asks() is ReadClock
            &&& s1.asks() == (RectTask::Fly { delta_time: DELTA_TIME })
            &&& s2.asks() is Draw
            &&& s2.rects == ended.rects
            &&& s3.asks() is ReadClock
            &&& s4.asks() is Flush
            &&& s5.asks() is ReadClock && s6.asks() is ReadClock && s7.asks() is ReadClock
            &&& elapsed < perf::FRAME_TIME_MS ==> s8.asks() == (RectTask::Sleep {
                ms: (perf::FRAME_TIME_MS - elapsed) as usize,
            }) && s8.react(RectReport::Slept) == ended
            &&& elapsed >= perf::FRAME_TIME_MS ==> s8 == ended
        }),
{
}

/// The state after some reports, from the very start.
pub open spec fn after_reports(reports: Seq<RectReport>) -> RectState
    decreases reports.len(),
{
    if reports.len() == 0 {
        RectState::initial()
    } else {
        after_reports(reports.drop_last()).react(reports.last())
    }
}

/// Each report was taken.
pub open spec fn all_taken(reports: Seq<RectReport>) -> bool
    decreases reports.len(),
{
    reports.len() > 0 ==> {
        &&& all_taken(reports.drop_last())
        &&& after_reports(reports.drop_last()).takes(reports.last())
    }
}

/// The number of reports of a sort.
pub open spec fn number(reports: Seq<RectReport>, sort: spec_fn(RectReport) -> bool) -> int
    decreases reports.len(),
{
    if reports.len() == 0 {
        0
    } else {
        number(reports.drop_last(), sort) + once_if(sort(reports.last()))
    }
}

/// The number of times that the display was looked at.
pub open spec fn checks(reports: Seq<RectReport>) -> int {
    number(reports, |report: RectReport| report is Config)
}

/// The number of changes of the display.
pub open spec fn changes(reports: Seq<RectReport>) -> int {
    number(reports, |report: RectReport| report == (RectReport::Config { pending: true }))
}

/// The number of times that the resolution was fetched.
pub open spec fn fetches(reports: Seq<RectReport>) -> int {
    number(reports, |report: RectReport| report is Resolution)
}

/// The number of times that a framebuffer was set up.
pub open spec fn setups(reports: Seq<RectReport>) -> int {
    number(reports, |report: RectReport| report is Framebuffer)
}

/// The number of times that the rectangles were moved.
pub open spec fn turns(reports: Seq<RectReport>) -> int {
    number(reports, |report: RectReport| report is Flown)
}

/// The number of drawings.
pub open spec fn drawings(reports: Seq<RectReport>) -> int {
    number(reports, |report: RectReport| report is Drawn)
}

/// The number of flushes.
pub open spec fn flushes(reports: Seq<RectReport>) -> int {
    number(reports, |report: RectReport| report is Flushed)
}

/// In every frame the display is looked at once, the rectangles are moved once and drawn
/// once, and there is exactly one flush, in this order: when the display is looked at there
/// have been equally many of each, and during a frame each is ahead of the next by at most
/// one.
pub proof fn one_of_each_per_frame(reports: Seq<RectReport>)
    requires
        all_taken(reports),
    ensures
        ({
            let demo = after_reports(reports);
            &&& demo.wf()
            &&& !(demo.stage is Failed) ==> checks(reports) - turns(reports) == once_if(
                demo.stage is Resizing || demo.stage is ResizingBuffer || demo.stage is Starting
                    || demo.stage is Flying,
            )
            &&& turns(reports) - drawings(reports) == once_if(demo.stage is Drawing)
            &&& drawings(reports) - flushes(reports) == once_if(
                demo.stage is Drawn || demo.stage is Flushing,
            )
            &&& demo.stage is Checking ==> checks(reports) == turns(reports) && turns(reports)
                == drawings(reports) && drawings(reports) == flushes(reports)
        }),
    decreases reports.len(),
{
    if reports.len() > 0 {
        one_of_each_per_frame(reports.drop_last());
        react_keeps_wf(after_reports(reports.drop_last()), reports.last());
    }
}

/// Each change of the display, and the opening of the screen, fetches the resolution once and
/// then sets up one framebuffer, both before the next frame starts; nothing else does.
pub proof fn each_change_sets_up_once(reports: Seq<RectReport>)
    requires
        all_taken(reports),
        !(after_reports(reports).stage is Failed),
    ensures
        ({
            let demo = after_reports(reports);
            &&& changes(reports) + 1 - fetches(reports) == once_if(
                demo.stage is Opening || demo.stage is Resizing,
            )
            &&& fetches(reports) - setups(reports) == once_if(
                demo.stage is OpeningBuffer || demo.stage is ResizingBuffer,
            )
        }),
    decreases reports.len(),
{
    if reports.len() > 0 {
        each_change_sets_up_once(reports.drop_last());
    }
}

/// The resolution that was fetched last.
pub open spec fn last_resolution(reports: Seq<RectReport>) -> (u32, u32)
    decreases reports.len(),
{
    if reports.len() == 0 {
        (0, 0)
    } else {
        match reports.last() {
            RectReport::Resolution { size: Ok(extent) } => extent,
            _ => last_resolution(reports.drop_last()),
        }
    }
}

/// The length of the framebuffer that was set up last.
pub open spec fn last_framebuffer(reports: Seq<RectReport>) -> usize
    decreases reports.len(),
{
    if reports.len() == 0 {
        0
    } else {
        match reports.last() {
            RectReport::Framebuffer { len: Ok(len) } => len,
            _ => last_framebuffer(reports.drop_last()),
        }
    }
}

/// Whatever is moved, drawn or flushed goes by the resolution that was fetched last and into
/// the framebuffer that was set up last.
pub proof fn frames_go_by_the_last_setup(reports: Seq<RectReport>)
    requires
        all_taken(reports),
    ensures
        ({
            let demo = after_reports(reports);
            let (width, height) = last_resolution(reports);
            match demo.stage {
                RectStage::Failed { .. } => true,
                RectStage::OpeningBuffer { width: w, height: h }
                | RectStage::ResizingBuffer { width: w, height: h } => w == width && h == height
                    && demo.len == last_framebuffer(reports),
                _ => demo.width == width && demo.height == height && demo.len == last_framebuffer(
                    reports,
                ),
            }
        }),
    decreases reports.len(),
{
    if reports.len() > 0 {
        frames_go_by_the_last_setup(reports.drop_last());
    }
}

/// The error of a task that failed.
pub open spec fn failure(report: RectReport) -> Option<Error> {
    match report {
        RectReport::Resolution { size: Err(error) } => Some(error),
        RectReport::Framebuffer { len: Err(error) } => Some(error),
        RectReport::Flushed { result: Err(error) } => Some(error),
        _ => None,
    }
}

/// The animation does not end by itself: it is given up exactly when a flush fails, or the
/// resolution or a framebuffer cannot be had, at the first such failure, with its error, and
/// nothing follows.
pub proof fn animation_ends_with_the_first_failure(reports: Seq<RectReport>)
    requires
        all_taken(reports),
    ensures
        ({
            let demo = after_reports(reports);
            &&& demo.stage matches RectStage::Failed { error } ==> reports.len() > 0 && failure(
                reports.last(),
            ) == Some(error)
            &&& forall|i: int|
                0 <= i < reports.len() ==> (failure(#[trigger] reports[i]) matches Some(error)
                    ==> i == reports.len() - 1 && demo.stage == (RectStage::Failed { error }))
            &&& demo.stage is Failed ==> forall|report: RectReport| !demo.takes(report)
        }),
    decreases reports.len(),
{
    if reports.len() > 0 {
        let rest = reports.drop_last();
        let before = after_reports(rest);
        let demo = after_reports(reports);
        animation_ends_with_the_first_failure(rest);
        assert forall|i: int| 0 <= i < reports.len() implies (failure(
            #[trigger] reports[i],
        ) matches Some(error) ==> i == reports.len() - 1 && demo.stage == (RectStage::Failed {
            error,
        })) by {
            if i < rest.len() && failure(reports[i]) is Some {
                assert(rest[i] == reports[i]);
                assert(!before.takes(reports.last()));
            }
        }
    }
}

/// The resolution that the rectangles were created for.
pub open spec fn first_screen(reports: Seq<RectReport>) -> (int, int)
    decreases reports.len(),
{
    if reports.len() == 0 {
        (0, 0)
    } else {
        let rest = reports.drop_last();
        let before = after_reports(rest);
        match (before.stage, reports.last()) {
            (
                RectStage::OpeningBuffer { width, height },
                RectReport::Framebuffer { .. },
            ) => (width as int, height as int),
            _ => first_screen(rest),
        }
    }
}

/// The frames in which the rectangles were moved.
pub open spec fn frames_of(reports: Seq<RectReport>) -> Seq<Frame>
    decreases reports.len(),
{
    if reports.len() == 0 {
        Seq::empty()
    } else {
        let rest = reports.drop_last();
        let before = after_reports(rest);
        match reports.last() {
            RectReport::Flown { flights } => frames_of(rest).push(
                Frame {
                    flights: flights@,
                    width: before.width as int,
                    height: before.height as int,
                },
            ),
            _ => frames_of(rest),
        }
    }
}

/// The rectangles are those that were created when the screen was opened, after the flight of
/// each frame since, on the screen of that frame.
pub proof fn rectangles_fly_frame_by_frame(reports: Seq<RectReport>)
    requires
        all_taken(reports),
    ensures
        ({
            let demo = after_reports(reports);
            let (width, height) = first_screen(reports);
            &&& demo.opened() ==> {
                &&& RECT_W < width <= usize::MAX && RECT_H < height <= usize::MAX
                &&& demo.rects == rectangles::after_frames(
                    rectangles::all_spawned(width, height),
                    frames_of(reports),
                )
            }
            &&& !demo.opened() ==> frames_of(reports).len() == 0
        }),
    decreases reports.len(),
{
    if reports.len() > 0 {
        let rest = reports.drop_last();
        let before = after_reports(rest);
        rectangles_fly_frame_by_frame(rest);
        one_of_each_per_frame(rest);
        if let RectReport::Flown { flights } = reports.last() {
            let frames = frames_of(reports);
            assert(frames.drop_last() =~= frames_of(rest));
        }
    }
}

/// On the screen, always: if the flights told the truth and the display never became smaller
/// than a rectangle, each rectangle that is drawn lies wholly on the screen. One that has
/// reached the left or the upper edge lies at it and moves away from it, and one that lies at
/// the right or the lower edge moves away from that.
pub proof fn drawn_rectangles_are_on_screen(reports: Seq<RectReport>, i: int)
    requires
        all_taken(reports),
        after_reports(reports).stage is Drawing,
        rectangles::frames_truthful(
            rectangles::all_spawned(first_screen(reports).0, first_screen(reports).1),
            frames_of(reports),
        ),
        0 <= i < RECT_COUNT,
    ensures
        ({
            let demo = after_reports(reports);
            let rect = demo.rects[i];
            let flight = frames_of(reports).last().flights[i];
            &&& frames_of(reports).len() > 0
            &&& flight.at_left ==> rect.x == 0 && rect.vx > 0
            &&& flight.at_top ==> rect.y == 0 && rect.vy > 0
            &&& rectangles::on_screen(rect, demo.width as int, demo.height as int)
            &&& rect.x + rect.width == demo.width ==> rect.vx < 0
            &&& rect.y + rect.height == demo.height ==> rect.vy < 0
        }),
{
    let (width, height) = first_screen(reports);
    let rest = reports.drop_last();
    let before = after_reports(rest);
    one_of_each_per_frame(rest);
    one_of_each_per_frame(reports);
    rectangles_fly_frame_by_frame(reports);
    assert(before.takes(reports.last()));
    assert(reports.last() is Flown);
    rectangles::every_frame_on_screen(width, height, frames_of(reports), i);
}

/// A report on the task is taken, if what follows from it can be represented; and only then. The
/// screen that the rectangles are created on has to be larger than one of them.
pub proof fn reports_on_the_task_are_taken(demo: RectState, report: RectReport)
    requires
        demo.wf(),
    ensures
        demo.takes(report) <==> match report {
            RectReport::Resolution { .. } => demo.asks() is FetchResolution,
            RectReport::Framebuffer { len } => demo.asks() is SetUpFramebuffer && (len is Ok
                ==> match demo.stage {
                RectStage::OpeningBuffer { width, height } => width > 50 && height > 30 && 4
                    * width <= usize::MAX,
                RectStage::ResizingBuffer { width, .. } => 4 * width <= usize::MAX,
                _ => true,
            }),
            RectReport::Time { now } => demo.asks() is ReadClock && match demo.stage {
                RectStage::Counting { render_start, render_end, .. } => {
                    &&& isize::MIN <= render_end - render_start <= isize::MAX
                    &&& isize::MIN <= now - demo.log.last_log_time <= isize::MAX
                },
                RectStage::Ending { frame_start } => {
                    &&& isize::MIN <= now - frame_start <= isize::MAX
                    &&& 16 - (now - frame_start) <= isize::MAX
                },
                _ => true,
            },
            RectReport::Config { .. } => demo.asks() is PollConfig,
            RectReport::Flown { flights } => demo.asks() is Fly && flights@.len() == 500,
            RectReport::Drawn => demo.asks() is Draw,
            RectReport::Flushed { .. } => demo.asks() is Flush,
            RectReport::Slept => demo.asks() is Sleep,
        },
{
}

/// What the log does with a frame: it notes the render time; when half a minute has passed since
/// it last told anything, it tells the statistics of what it has noted, this frame included.
pub proof fn frames_are_logged(
    demo: RectState,
    frame_start: isize,
    render_start: isize,
    render_end: isize,
    now: isize,
)
    requires
        demo.stage == (RectStage::Counting { frame_start, render_start, render_end }),
        demo.takes(RectReport::Time { now }),
        demo.log.window.len() <= 1000,
    ensures
        ({
            let report = RectReport::Time { now };
            let after = demo.react(report).log;
            &&& after.window == (if demo.log.window.len() < 1000 {
                demo.log.window
            } else {
                demo.log.window.skip(1)
            }).push((render_end - render_start) as isize)
            &&& now - demo.log.last_log_time < 30_000 ==> demo.tells(report) is None
                && after.last_log_time == demo.log.last_log_time
            &&& now - demo.log.last_log_time >= 30_000 ==> {
                &&& demo.tells(report) matches Some(told)
                &&& told.count == after.window.len()
                &&& told == perf::report_of(after.window)
                &&& after.last_log_time == now
            }
        }),
{
    assert(demo.log.window.drop_first() =~= demo.log.window.skip(1));
}

/// Every pixel that is both on a screen and in a rectangle has its four bytes in a buffer of
/// `len` bytes, in which the rows follow each other without padding.
pub open spec fn lies_in_buffer(rect: MovingRect, width: int, height: int, len: int) -> bool {
    forall|px: int, py: int|
        rect.x <= px < rect.x + rect.width && px < width && rect.y <= py < rect.y + rect.height
            && py < height ==> #[trigger] renderer::ends_at(4 * width, px, py) <= len
}

/// The rectangles can be drawn exactly if each of them lies in the framebuffer, as far as the
/// screen shows it.
pub proof fn drawing_stays_in_the_framebuffer(demo: RectState)
    ensures
        demo.drawable() <==> forall|i: int|
            0 <= i < demo.rects.len() ==> lies_in_buffer(
                #[trigger] demo.rects[i],
                demo.width as int,
                demo.height as int,
                demo.len as int,
            ),
{
    let fills = rectangles::rect_fills(demo.rects);
    let len = demo.len as int;
    let width = demo.width as int;
    let height = demo.height as int;
    assert forall|i: int| 0 <= i < fills.len() implies (lies_in_buffer(
        demo.rects[i],
        width,
        height,
        len,
    ) <==> renderer::rect_fits(
        len,
        width,
        height,
        4 * width,
        (#[trigger] fills[i]).x,
        fills[i].y,
        fills[i].w,
        fills[i].h,
    )) by {
        let fill = fills[i];
        assert(fill == rectangles::rect_fill(demo.rects[i]));
        renderer::fitting_is_lying_in_the_buffer(
            len,
            width,
            height,
            4 * width,
            fill.x,
            fill.y,
            fill.w,
            fill.h,
        );
    }
    assert forall|i: int| 0 <= i < demo.rects.len() implies #[trigger] demo.rects[i].x
        == fills[i].x by {}
    if forall|i: int| 0 <= i < demo.rects.len() ==> lies_in_buffer(
        #[trigger] demo.rects[i],
        width,
        height,
        len,
    ) {
        assert forall|i: int| 0 <= i < fills.len() implies renderer::rect_fits(
            len,
            width,
            height,
            4 * width,
            (#[trigger] fills[i]).x,
            fills[i].y,
            fills[i].w,
            fills[i].h,
        ) by {
            assert(lies_in_buffer(demo.rects[i], width, height, len));
        }
    }
    if demo.drawable() {
        assert forall|i: int| 0 <= i < demo.rects.len() implies lies_in_buffer(
            #[trigger] demo.rects[i],
            width,
            height,
            len,
        ) by {
            let fill = fills[i];
        }
    }
}

/// The flight of the rectangles takes a step of a sixtieth of a second.
pub proof fn step_of_a_frame(demo: RectState)
    requires
        demo.stage is Flying,
    ensures
        demo.asks() == (RectTask::Fly { delta_time: 0x3c88_8f86 }),
{
}

} // verus!
