//! The course of a game of Pong, frame by frame: poll the keyboard, take a turn, draw, flush,
//! count, and sleep for the rest of the frame's time.
//!
//! [`PongLoop`] says what to do next; whoever runs it does so and reports what came of it.

use crate::error::Error;
use crate::perf;
use crate::perf::{fits, sleep_time, span_representable, CounterReport, FrameCounter};
use crate::pong;
use crate::pong::{follow_ball, update_game, Game, Keyboard};
use vstd::prelude::*;

verus! {

/// The time step of a turn in seconds, 0.016666 in single precision.
pub const DELTA_TIME: u32 = 0x3c88_8723;

/// The speed of the machine's paddle in pixels per second.
pub const MACHINE_SPEED: u32 = 400;

/// What is to be done next.
#[derive(Clone, Copy, Debug, PartialEq, Eq, Structural)]
pub enum FrameTask {
    /// Read the system time.
    ReadClock,
    /// Look for a byte of the keyboard.
    PollKeyboard,
    /// Move the ball by its velocity and the machine's paddle by its speed, for the time
    /// step.
    Fly { delta_time: u32, machine_speed: u32 },
    /// Draw the game.
    Draw,
    /// Flush the framebuffer.
    Flush,
    /// Sleep.
    Sleep { ms: usize },
    /// Give up.
    Fail { error: Error },
}

/// What came of a task.
#[derive(Clone, Copy, Debug, PartialEq, Eq)]
pub enum FrameReport {
    /// The system time.
    Time { now: isize },
    /// The byte of the keyboard, if there was one.
    Key { code: Option<u8> },
    /// Where the ball has flown, whether it is below the middle of the machine's paddle, and
    /// where the machine's speed would take the paddle.
    Flown { ball_x: usize, ball_y: usize, below: bool, paddle_y: usize },
    /// The game is drawn.
    Drawn,
    /// The framebuffer is flushed, or that failed.
    Flushed { result: Result<(), Error> },
    /// The time is over.
    Slept,
}

/// The stage of a frame.
#[derive(Clone, Copy, Debug, PartialEq, Eq, Structural)]
pub enum FrameStage {
    Starting,
    Polling { frame_start: isize },
    Flying { frame_start: isize },
    Updated { frame_start: isize },
    Drawing { frame_start: isize, render_start: isize },
    Flushing { frame_start: isize, render_start: isize },
    Rendered { frame_start: isize, render_start: isize },
    Counting { frame_start: isize, render_start: isize, render_end: isize },
    Ending { frame_start: isize },
    Sleeping { ms: usize },
    Failed { error: Error },
}

/// A game of Pong that is under way.
#[derive(Clone, Copy, Debug, PartialEq, Eq, Structural)]
pub struct PongLoop {
    pub stage: FrameStage,
    pub game: Game,
    pub keyboard: Keyboard,
    pub counter: FrameCounter,
    pub width: usize,
    pub height: usize,
    /// Whether the last turn served the ball anew.
    pub served: bool,
}

/// A frame can be counted.
pub open spec fn countable(
    counter: FrameCounter,
    render_start: isize,
    render_end: isize,
    now: isize,
) -> bool {
    &&& counter.frame_count < i32::MAX
    &&& span_representable(render_start, render_end)
    &&& isize::MIN <= counter.total_render_time_ms + (render_end - render_start) <= isize::MAX
    &&& span_representable(counter.last_log_time, now)
}

/// A counter after one more frame.
pub open spec fn counted(
    counter: FrameCounter,
    render_start: isize,
    render_end: isize,
    now: isize,
) -> FrameCounter {
    if now - counter.last_log_time >= perf::LOG_INTERVAL_MS {
        FrameCounter { frame_count: 0, total_render_time_ms: 0, last_log_time: now }
    } else {
        FrameCounter {
            frame_count: (counter.frame_count + 1) as i32,
            total_render_time_ms: (counter.total_render_time_ms + (render_end - render_start))
                as isize,
            last_log_time: counter.last_log_time,
        }
    }
}

/// What a counter reports on one more frame.
pub open spec fn count_report(
    counter: FrameCounter,
    render_start: isize,
    render_end: isize,
    now: isize,
) -> Option<CounterReport> {
    if now - counter.last_log_time >= perf::LOG_INTERVAL_MS {
        Some(
            CounterReport {
                frame_count: (counter.frame_count + 1) as i32,
                total_render_time_ms: (counter.total_render_time_ms + (render_end - render_start))
                    as isize,
                elapsed_ms: (now - counter.last_log_time) as isize,
            },
        )
    } else {
        None
    }
}

impl PongLoop {
    /// A game that has not begun.
    pub open spec fn initial(width: int, height: int, now: isize) -> PongLoop {
        PongLoop {
            stage: FrameStage::Starting,
            game: pong::initial_game(width, height),
            keyboard: Keyboard { last_scancode: None },
            counter: FrameCounter { frame_count: 0, total_render_time_ms: 0, last_log_time: now },
            width: width as usize,
            height: height as usize,
            served: false,
        }
    }

    /// What holds all the time.
    pub open spec fn wf(self) -> bool {
        &&& self.width >= 32
        &&& self.height >= 60
        &&& self.game.inv(self.width as int, self.height as int)
    }

    /// What is to be done at this stage.
    pub open spec fn asks(self) -> FrameTask {
        match self.stage {
            FrameStage::Polling { .. } => FrameTask::PollKeyboard,
            FrameStage::Flying { .. } => FrameTask::Fly {
                delta_time: DELTA_TIME,
                machine_speed: MACHINE_SPEED,
            },
            FrameStage::Drawing { .. } => FrameTask::Draw,
            FrameStage::Flushing { .. } => FrameTask::Flush,
            FrameStage::Sleeping { ms } => FrameTask::Sleep { ms },
            FrameStage::Failed { error } => FrameTask::Fail { error },
            _ => FrameTask::ReadClock,
        }
    }

    /// The report is one on the task, and what follows from it can be represented. The
    /// machine's speed takes its paddle towards the ball.
    pub open spec fn takes(self, report: FrameReport) -> bool {
        match report {
            FrameReport::Time { now } => match self.stage {
                FrameStage::Starting
                | FrameStage::Updated { .. }
                | FrameStage::Rendered { .. } => true,
                FrameStage::Counting { render_start, render_end, .. } => countable(
                    self.counter,
                    render_start,
                    render_end,
                    now,
                ),
                FrameStage::Ending { frame_start } => span_representable(frame_start, now)
                    && perf::FRAME_TIME_MS - (now - frame_start) <= isize::MAX,
                _ => false,
            },
            FrameReport::Key { .. } => self.stage is Polling,
            FrameReport::Flown { ball_x, ball_y, below, paddle_y } => {
                &&& self.stage is Flying
                &&& pong::flies_towards(self.game.paddle2, below, paddle_y)
                &&& ball_x + self.game.ball.size <= usize::MAX
                &&& ball_y + self.game.ball.size <= usize::MAX
                &&& pong::out_left(ball_x as int) ==> self.game.score2 < usize::MAX
                &&& pong::out_right(
                    ball_x as int,
                    self.game.ball.size as int,
                    self.width as int,
                ) ==> self.game.score1 < usize::MAX
            },
            FrameReport::Drawn => self.stage is Drawing,
            FrameReport::Flushed { .. } => self.stage is Flushing,
            FrameReport::Slept => self.stage is Sleeping,
        }
    }

    /// The same loop at another stage.
    pub open spec fn at(self, stage: FrameStage) -> PongLoop {
        PongLoop { stage, ..self }
    }

    /// The game after a turn.
    pub open spec fn turned(
        self,
        ball_x: usize,
        ball_y: usize,
        below: bool,
        paddle_y: usize,
    ) -> Game {
        pong::game_after(
            self.game,
            self.keyboard.last_scancode,
            pong::machine_moved(self.game.paddle2, below, paddle_y, self.height as int) as usize,
            ball_x as int,
            ball_y as int,
            self.width as int,
            self.height as int,
        )
    }

    /// The state after a report.
    pub open spec fn react(self, report: FrameReport) -> PongLoop {
        match report {
            FrameReport::Time { now } => match self.stage {
                FrameStage::Starting => self.at(FrameStage::Polling { frame_start: now }),
                FrameStage::Updated { frame_start } => self.at(
                    FrameStage::Drawing { frame_start, render_start: now },
                ),
                FrameStage::Rendered { frame_start, render_start } => self.at(
                    FrameStage::Counting { frame_start, render_start, render_end: now },
                ),
                FrameStage::Counting { frame_start, render_start, render_end } => PongLoop {
                    stage: FrameStage::Ending { frame_start },
                    counter: counted(self.counter, render_start, render_end, now),
                    ..self
                },
                FrameStage::Ending { frame_start } => if now - frame_start < perf::FRAME_TIME_MS {
                    self.at(
                        FrameStage::Sleeping {
                            ms: (perf::FRAME_TIME_MS - (now - frame_start)) as usize,
                        },
                    )
                } else {
                    self.at(FrameStage::Starting)
                },
                _ => self,
            },
            FrameReport::Key { code } => match self.stage {
                FrameStage::Polling { frame_start } => PongLoop {
                    stage: FrameStage::Flying { frame_start },
                    keyboard: if code is Some {
                        Keyboard { last_scancode: code }
                    } else {
                        self.keyboard
                    },
                    ..self
                },
                _ => self,
            },
            FrameReport::Flown { ball_x, ball_y, below, paddle_y } => match self.stage {
                FrameStage::Flying { frame_start } => PongLoop {
                    stage: FrameStage::Updated { frame_start },
                    game: self.turned(ball_x, ball_y, below, paddle_y),
                    served: pong::out_left(ball_x as int) || pong::out_right(
                        ball_x as int,
                        self.game.ball.size as int,
                        self.width as int,
                    ),
                    ..self
                },
                _ => self,
            },
            FrameReport::Drawn => match self.stage {
                FrameStage::Drawing { frame_start, render_start } => self.at(
                    FrameStage::Flushing { frame_start, render_start },
                ),
                _ => self,
            },
            FrameReport::Flushed { result } => match self.stage {
                FrameStage::Flushing { frame_start, render_start } => match result {
                    Ok(_) => self.at(FrameStage::Rendered { frame_start, render_start }),
                    Err(error) => self.at(FrameStage::Failed { error }),
                },
                _ => self,
            },
            FrameReport::Slept => self.at(FrameStage::Starting),
        }
    }

    /// What is told of the frames when a report is taken.
    pub open spec fn tells(self, report: FrameReport) -> Option<CounterReport> {
        match (self.stage, report) {
            (
                FrameStage::Counting { render_start, render_end, .. },
                FrameReport::Time { now },
            ) => count_report(self.counter, render_start, render_end, now),
            _ => None,
        }
    }

    /// A game that has not begun, on a screen of the given size.
    pub fn new(width: usize, height: usize, now: isize) -> (pong: PongLoop)
        requires
            width >= 32,
            height >= 60,
        ensures
            pong == PongLoop::initial(width as int, height as int, now),
            pong.wf(),
    {
        proof {
            pong::new_game_inv(width as int, height as int);
        }
        PongLoop {
            stage: FrameStage::Starting,
            game: Game::new(width, height),
            keyboard: Keyboard::new(),
            counter: FrameCounter::new(now),
            width,
            height,
            served: false,
        }
    }

    /// What is to be done next.
    pub fn task(&self) -> (task: FrameTask)
        ensures
            task == self.asks(),
    {
        match self.stage {
            FrameStage::Polling { .. } => FrameTask::PollKeyboard,
            FrameStage::Flying { .. } => FrameTask::Fly {
                delta_time: DELTA_TIME,
                machine_speed: MACHINE_SPEED,
            },
            FrameStage::Drawing { .. } => FrameTask::Draw,
            FrameStage::Flushing { .. } => FrameTask::Flush,
            FrameStage::Sleeping { ms } => FrameTask::Sleep { ms },
            FrameStage::Failed { error } => FrameTask::Fail { error },
            _ => FrameTask::ReadClock,
        }
    }

    /// Whether the game can go on after a report.
    pub fn accepts(&self, report: &FrameReport) -> (accepted: bool)
        ensures
            accepted == self.takes(*report),
    {
        match report {
            FrameReport::Time { now } => match self.stage {
                FrameStage::Starting
                | FrameStage::Updated { .. }
                | FrameStage::Rendered { .. } => true,
                FrameStage::Counting { render_start, render_end, .. } => {
                    let span: i128 = render_end as i128 - render_start as i128;
                    let total: i128 = self.counter.total_render_time_ms as i128 + span;
                    let elapsed: i128 = *now as i128 - self.counter.last_log_time as i128;
                    self.counter.frame_count < i32::MAX && fits(span) && fits(total) && fits(
                        elapsed,
                    )
                },
                FrameStage::Ending { frame_start } => {
                    let elapsed: i128 = *now as i128 - frame_start as i128;
                    let left: i128 = perf::FRAME_TIME_MS as i128 - elapsed;
                    fits(elapsed) && left <= isize::MAX as i128
                },
                _ => false,
            },
            FrameReport::Key { .. } => matches!(self.stage, FrameStage::Polling { .. }),
            FrameReport::Flown { ball_x, ball_y, below, paddle_y } => {
                let size: usize = self.game.ball.size;
                let towards = if *below {
                    *paddle_y >= self.game.paddle2.y
                } else {
                    *paddle_y <= self.game.paddle2.y
                };
                matches!(self.stage, FrameStage::Flying { .. }) && towards && *ball_x <= usize::MAX
                    - size && *ball_y <= usize::MAX - size && (*ball_x != 0 || self.game.score2
                    < usize::MAX) && (*ball_x == 0 || *ball_x + size < self.width
                    || self.game.score1 < usize::MAX)
            },
            FrameReport::Drawn => matches!(self.stage, FrameStage::Drawing { .. }),
            FrameReport::Flushed { .. } => matches!(self.stage, FrameStage::Flushing { .. }),
            FrameReport::Slept => matches!(self.stage, FrameStage::Sleeping { .. }),
        }
    }

    /// Takes the report on the task. Now and then the result is a report on the frames.
    pub fn resume(&mut self, report: FrameReport) -> (told: Option<CounterReport>)
        requires
            old(self).wf(),
            old(self).takes(report),
        ensures
            *final(self) == old(self).react(report),
            told == old(self).tells(report),
            final(self).wf(),
    {
        proof {
            react_keeps_wf(*self, report);
        }
        let mut told: Option<CounterReport> = None;
        match report {
            FrameReport::Time { now } => match self.stage {
                FrameStage::Starting => {
                    self.stage = FrameStage::Polling { frame_start: now };
                },
                FrameStage::Updated { frame_start } => {
                    self.stage = FrameStage::Drawing { frame_start, render_start: now };
                },
                FrameStage::Rendered { frame_start, render_start } => {
                    self.stage =
                    FrameStage::Counting { frame_start, render_start, render_end: now };
                },
                FrameStage::Counting { frame_start, render_start, render_end } => {
                    told = self.counter.frame(render_start, render_end, now);
                    self.stage = FrameStage::Ending { frame_start };
                },
                FrameStage::Ending { frame_start } => {
                    self.stage = match sleep_time(frame_start, now) {
                        Some(ms) => FrameStage::Sleeping { ms },
                        None => FrameStage::Starting,
                    };
                },
                _ => {},
            },
            FrameReport::Key { code } => {
                if let FrameStage::Polling { frame_start } = self.stage {
                    self.keyboard.poll_keyboard(code);
                    self.stage = FrameStage::Flying { frame_start };
                }
            },
            FrameReport::Flown { ball_x, ball_y, below, paddle_y } => {
                if let FrameStage::Flying { frame_start } = self.stage {
                    let width: usize = self.width;
                    let height: usize = self.height;
                    let keyboard = self.keyboard;
                    let paddle2_y: usize = follow_ball(
                        &self.game.paddle2,
                        below,
                        paddle_y,
                        height,
                    );
                    proof {
                        pong::machine_follows_the_ball(
                            self.game.paddle2,
                            below,
                            paddle_y,
                            height as int,
                        );
                    }
                    self.served =
                    update_game(
                        &mut self.game,
                        &keyboard,
                        paddle2_y,
                        ball_x,
                        ball_y,
                        width,
                        height,
                    );
                    self.stage = FrameStage::Updated { frame_start };
                }
            },
            FrameReport::Drawn => {
                if let FrameStage::Drawing { frame_start, render_start } = self.stage {
                    self.stage = FrameStage::Flushing { frame_start, render_start };
                }
            },
            FrameReport::Flushed { result } => {
                if let FrameStage::Flushing { frame_start, render_start } = self.stage {
                    self.stage = match result {
                        Ok(_) => FrameStage::Rendered { frame_start, render_start },
                        Err(error) => FrameStage::Failed { error },
                    };
                }
            },
            FrameReport::Slept => {
                self.stage = FrameStage::Starting;
            },
        }
        told
    }
}

/// Every report that is taken keeps the game in order: above all, both paddles stay on the
/// screen, and the ball keeps its speed.
pub proof fn react_keeps_wf(pong: PongLoop, report: FrameReport)
    requires
        pong.wf(),
        pong.takes(report),
    ensures
        pong.react(report).wf(),
{
    if let FrameReport::Flown { ball_x, ball_y, below, paddle_y } = report {
        let height = pong.height as int;
        pong::machine_follows_the_ball(pong.game.paddle2, below, paddle_y, height);
        pong::turn_keeps_inv(
            pong.game,
            pong.keyboard.last_scancode,
            pong::machine_moved(pong.game.paddle2, below, paddle_y, height) as usize,
            ball_x as int,
            ball_y as int,
            pong.width as int,
            height,
        );
    }
}

/// A frame takes its course: the keyboard is polled, one turn is taken, the game is drawn,
/// the framebuffer is flushed, the frame is counted, and if it took less than its time, the
/// rest of it is slept. Then the next frame starts.
pub proof fn frame_takes_its_course(
    pong: PongLoop,
    frame_start: isize,
    code: Option<u8>,
    ball_x: usize,
    ball_y: usize,
    below: bool,
    paddle_y: usize,
    render_start: isize,
    render_end: isize,
    now: isize,
    frame_end: isize,
)
    requires
        pong.stage is Starting,
    ensures
        ({
            let s1 = pong.react(FrameReport::Time { now: frame_start });
            let s2 = s1.react(FrameReport::Key { code });
            let s3 = s2.react(FrameReport::Flown { ball_x, ball_y, below, paddle_y });
            let s4 = s3.react(FrameReport::Time { now: render_start });
            let s5 = s4.react(FrameReport::Drawn);
            let s6 = s5.react(FrameReport::Flushed { result: Ok(()) });
            let s7 = s6.react(FrameReport::Time { now: render_end });
            let s8 = s7.react(FrameReport::Time { now });
            let s9 = s8.react(FrameReport::Time { now: frame_end });
            let elapsed = frame_end - frame_start;
            &&& pong.asks() is ReadClock
            &&& s1.asks() is PollKeyboard
            &&& s2.asks() == (FrameTask::Fly {
                delta_time: DELTA_TIME,
                machine_speed: MACHINE_SPEED,
            })
            &&& s3.asks() is ReadClock
            &&& s4.asks() is Draw
            &&& s5.asks() is Flush
            &&& s6.asks() is ReadClock && s7.asks() is ReadClock && s8.asks() is ReadClock
            &&& elapsed < perf::FRAME_TIME_MS ==> s9.asks() == (FrameTask::Sleep {
                ms: (perf::FRAME_TIME_MS - elapsed) as usize,
            }) && s9.react(FrameReport::Slept).stage is Starting
            &&& elapsed >= perf::FRAME_TIME_MS ==> s9.stage is Starting
            &&& s2.keyboard.last_scancode == (if code is Some {
                code
            } else {
                pong.keyboard.last_scancode
            })
            &&& s4.game == s2.turned(ball_x, ball_y, below, paddle_y)
            &&& s9.game == s4.game
            &&& s9.counter == counted(pong.counter, render_start, render_end, now)
        }),
{
}

/// The state after some reports.
pub open spec fn after_reports(start: PongLoop, reports: Seq<FrameReport>) -> PongLoop
    decreases reports.len(),
{
    if reports.len() == 0 {
        start
    } else {
        after_reports(start, reports.drop_last()).react(reports.last())
    }
}

/// Each report was taken.
pub open spec fn all_taken(start: PongLoop, reports: Seq<FrameReport>) -> bool
    decreases reports.len(),
{
    reports.len() > 0 ==> {
        &&& all_taken(start, reports.drop_last())
        &&& after_reports(start, reports.drop_last()).takes(reports.last())
    }
}

/// The number of reports of a sort.
pub open spec fn number(reports: Seq<FrameReport>, sort: spec_fn(FrameReport) -> bool) -> int
    decreases reports.len(),
{
    if reports.len() == 0 {
        0
    } else {
        number(reports.drop_last(), sort) + (if sort(reports.last()) {
            1int
        } else {
            0
        })
    }
}

/// The number of times that the keyboard was polled.
pub open spec fn polls(reports: Seq<FrameReport>) -> int {
    number(reports, |report: FrameReport| report is Key)
}

/// The number of turns that were taken.
pub open spec fn turns(reports: Seq<FrameReport>) -> int {
    number(reports, |report: FrameReport| report is Flown)
}

/// The number of drawings.
pub open spec fn drawings(reports: Seq<FrameReport>) -> int {
    number(reports, |report: FrameReport| report is Drawn)
}

/// The number of flushes.
pub open spec fn flushes(reports: Seq<FrameReport>) -> int {
    number(reports, |report: FrameReport| report is Flushed)
}

/// One, if something holds.
pub open spec fn once_if(holds: bool) -> int {
    if holds {
        1
    } else {
        0
    }
}

/// In every frame there is one poll, one turn, one drawing and one flush, in this order: at
/// the start of a frame there have been equally many of each, and during a frame each is
/// ahead of the next by at most one.
pub proof fn one_of_each_per_frame(
    width: int,
    height: int,
    now: isize,
    reports: Seq<FrameReport>,
)
    requires
        32 <= width <= usize::MAX,
        60 <= height <= usize::MAX,
        all_taken(PongLoop::initial(width, height, now), reports),
    ensures
        ({
            let pong = after_reports(PongLoop::initial(width, height, now), reports);
            &&& pong.wf()
            &&& polls(reports) - turns(reports) == once_if(pong.stage is Flying)
            &&& turns(reports) - drawings(reports) == once_if(
                pong.stage is Updated || pong.stage is Drawing,
            )
            &&& drawings(reports) - flushes(reports) == once_if(pong.stage is Flushing)
            &&& pong.stage is Starting ==> polls(reports) == turns(reports) && turns(reports)
                == drawings(reports) && drawings(reports) == flushes(reports)
        }),
    decreases reports.len(),
{
    let start = PongLoop::initial(width, height, now);
    if reports.len() == 0 {
        pong::new_game_inv(width, height);
    } else {
        one_of_each_per_frame(width, height, now, reports.drop_last());
        react_keeps_wf(after_reports(start, reports.drop_last()), reports.last());
    }
}

/// The error of a flush that failed.
pub open spec fn flush_error(report: FrameReport) -> Option<Error> {
    match report {
        FrameReport::Flushed { result: Err(error) } => Some(error),
        _ => None,
    }
}

/// The game does not end by itself: it is given up exactly when a flush fails, at the first
/// one that does, with that flush's error, and nothing follows.
pub proof fn game_ends_with_a_failed_flush(
    width: int,
    height: int,
    now: isize,
    reports: Seq<FrameReport>,
)
    requires
        all_taken(PongLoop::initial(width, height, now), reports),
    ensures
        ({
            let pong = after_reports(PongLoop::initial(width, height, now), reports);
            &&& pong.stage matches FrameStage::Failed { error } ==> reports.len() > 0
                && flush_error(reports.last()) == Some(error)
            &&& forall|i: int|
                0 <= i < reports.len() ==> (flush_error(#[trigger] reports[i]) matches Some(error)
                    ==> i == reports.len() - 1 && pong.stage == (FrameStage::Failed { error }))
            &&& pong.stage is Failed ==> forall|report: FrameReport| !pong.takes(report)
        }),
    decreases reports.len(),
{
    let start = PongLoop::initial(width, height, now);
    if reports.len() > 0 {
        let rest = reports.drop_last();
        let before = after_reports(start, rest);
        let pong = after_reports(start, reports);
        game_ends_with_a_failed_flush(width, height, now, rest);
        assert forall|i: int| 0 <= i < reports.len() implies (flush_error(
            #[trigger] reports[i],
        ) matches Some(error) ==> i == reports.len() - 1 && pong.stage == (FrameStage::Failed {
            error,
        })) by {
            if i < rest.len() && flush_error(reports[i]) is Some {
                assert(rest[i] == reports[i]);
                assert(!before.takes(reports.last()));
            }
        }
    }
}

/// A report on the task is taken, if what follows from it can be represented; and only then. Of
/// a flight that means: the machine's paddle goes towards the ball, the ball's far edges have
/// whole numbers, and a side that wins a point has room for it.
pub proof fn reports_on_the_task_are_taken(pong: PongLoop, report: FrameReport)
    requires
        pong.wf(),
    ensures
        pong.takes(report) <==> match report {
            FrameReport::Time { now } => pong.asks() is ReadClock && match pong.stage {
                FrameStage::Counting { render_start, render_end, .. } => {
                    let span = render_end - render_start;
                    &&& pong.counter.frame_count < i32::MAX
                    &&& isize::MIN <= span <= isize::MAX
                    &&& isize::MIN <= pong.counter.total_render_time_ms + span <= isize::MAX
                    &&& isize::MIN <= now - pong.counter.last_log_time <= isize::MAX
                },
                FrameStage::Ending { frame_start } => {
                    &&& isize::MIN <= now - frame_start <= isize::MAX
                    &&& 16 - (now - frame_start) <= isize::MAX
                },
                _ => true,
            },
            FrameReport::Key { .. } => pong.asks() is PollKeyboard,
            FrameReport::Flown { ball_x, ball_y, below, paddle_y } => {
                &&& pong.asks() is Fly
                &&& below ==> paddle_y >= pong.game.paddle2.y
                &&& !below ==> paddle_y <= pong.game.paddle2.y
                &&& ball_x + 10 <= usize::MAX
                &&& ball_y + 10 <= usize::MAX
                &&& ball_x == 0 ==> pong.game.score2 < usize::MAX
                &&& ball_x > 0 && ball_x + 10 >= pong.width ==> pong.game.score1 < usize::MAX
            },
            FrameReport::Drawn => pong.asks() is Draw,
            FrameReport::Flushed { .. } => pong.asks() is Flush,
            FrameReport::Slept => pong.asks() is Sleep,
        },
{
}

/// What the counter does with a frame: for half a minute it counts frames and adds up their
/// render times; then it tells both, with the time since it last did so, and starts over.
pub proof fn frames_are_counted(
    counter: FrameCounter,
    render_start: isize,
    render_end: isize,
    now: isize,
)
    requires
        countable(counter, render_start, render_end, now),
    ensures
        ({
            let after = counted(counter, render_start, render_end, now);
            let told = count_report(counter, render_start, render_end, now);
            let frames = counter.frame_count + 1;
            let spent = counter.total_render_time_ms + (render_end - render_start);
            let elapsed = now - counter.last_log_time;
            &&& elapsed < 30_000 ==> told is None && after.frame_count == frames
                && after.total_render_time_ms == spent && after.last_log_time
                == counter.last_log_time
            &&& elapsed >= 30_000 ==> {
                &&& told matches Some(report)
                &&& report.frame_count == frames
                &&& report.total_render_time_ms == spent
                &&& report.elapsed_ms == elapsed
                &&& after.frame_count == 0
                &&& after.total_render_time_ms == 0
                &&& after.last_log_time == now
            }
        }),
{
}

/// The loop says that the ball was served anew exactly if it was out: at the left edge, or with
/// its far side at the right edge.
pub proof fn served_after_the_ball_was_out(
    pong: PongLoop,
    ball_x: usize,
    ball_y: usize,
    below: bool,
    paddle_y: usize,
)
    requires
        pong.wf(),
        pong.takes(FrameReport::Flown { ball_x, ball_y, below, paddle_y }),
    ensures
        pong.react(FrameReport::Flown { ball_x, ball_y, below, paddle_y }).served <==> ball_x == 0
            || ball_x + 10 >= pong.width,
{
}

/// The loop begins with a new game: nobody has a point, no key is known, nothing has been
/// counted, and the first task is to read the time.
pub proof fn loop_begins_with_a_new_game(width: usize, height: usize, now: isize, pong: PongLoop)
    requires
        32 <= width,
        60 <= height,
        call_ensures(PongLoop::new, (width, height, now), pong),
    ensures
        pong.wf(),
        pong.width == width && pong.height == height,
        pong.game.score1 == 0 && pong.game.score2 == 0,
        pong.game.ball.x == width as int / 2 && pong.game.ball.y == height as int / 2,
        pong.game.paddle1.y + 30 == height as int / 2,
        pong.game.paddle2.y == pong.game.paddle1.y,
        pong.keyboard.last_scancode is None,
        pong.counter.frame_count == 0 && pong.counter.total_render_time_ms == 0,
        pong.counter.last_log_time == now,
        !pong.served,
        pong.asks() is ReadClock && pong.stage is Starting,
{
}

/// A turn of the loop is a turn of the game: the last key moves the player's paddle, the machine
/// moves its paddle as far as its speed takes it and the screen goes, and the ball flies where
/// it was reported.
pub proof fn turn_follows_the_rules(
    pong: PongLoop,
    ball_x: usize,
    ball_y: usize,
    below: bool,
    paddle_y: usize,
)
    requires
        pong.wf(),
        pong.takes(FrameReport::Flown { ball_x, ball_y, below, paddle_y }),
    ensures
        ({
            let after = pong.react(FrameReport::Flown { ball_x, ball_y, below, paddle_y });
            let machine = if below && paddle_y + 60 > pong.height {
                pong.height - 60
            } else {
                paddle_y as int
            };
            &&& pong.asks() == (FrameTask::Fly { delta_time: 0x3c88_8723, machine_speed: 400 })
            &&& after.game == pong::game_after(
                pong.game,
                pong.keyboard.last_scancode,
                machine as usize,
                ball_x as int,
                ball_y as int,
                pong.width as int,
                pong.height as int,
            )
            &&& after.game.paddle2.y == machine
            &&& after.keyboard == pong.keyboard
            &&& after.width == pong.width && after.height == pong.height
            &&& after.asks() is ReadClock
        }),
{
}

/// The loop tells what was counted when a frame is over, and nothing at any other time; and the
/// counter changes only then.
pub proof fn loop_tells_what_was_counted(pong: PongLoop, report: FrameReport)
    ensures
        match (pong.stage, report) {
            (
                FrameStage::Counting { render_start, render_end, .. },
                FrameReport::Time { now },
            ) => {
                &&& pong.tells(report) == count_report(
                    pong.counter,
                    render_start,
                    render_end,
                    now,
                )
                &&& pong.react(report).counter == counted(
                    pong.counter,
                    render_start,
                    render_end,
                    now,
                )
            },
            _ => pong.tells(report) is None && pong.react(report).counter == pong.counter,
        },
{
}

} // verus!
