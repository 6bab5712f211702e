//! The course of a playback: set up the stream, keep its queue filled, take it down.
//!
//! [`PcmPlayback`] says what to do next with the sound device; whoever runs it does so and
//! reports what came of it.

use crate::error::Error;
use crate::sound::params;
use crate::sound::params::{choose_params, ChannelRange, FormatSupport, PcmParams, RateSupport};
use std::collections::VecDeque;
use vstd::prelude::*;

verus! {

/// The number of transfers that may be under way.
pub const IN_FLIGHT: usize = 8;

/// A step of setting up the stream.
#[derive(Clone, Copy, Debug, PartialEq, Eq, Structural)]
pub enum Setup {
    SetParams,
    Prepare,
    Start,
}

/// Why a playback came to nothing.
#[derive(Clone, Copy, Debug, PartialEq, Eq, Structural)]
pub struct SetupFailed {
    /// The step that failed.
    pub step: Setup,
    /// The error.
    pub error: Error,
}

/// What is to be done next.
#[derive(Clone, Copy, Debug, PartialEq, Eq)]
pub enum Task {
    /// Set up the stream.
    SetUp { step: Setup },
    /// Transfer the `len` bytes from `offset` on, without waiting for their end.
    Transfer { offset: usize, len: usize },
    /// Look for a notification.
    PollNotification,
    /// Ask whether a transfer is complete.
    CheckTransfer { token: u16 },
    /// Give way for a moment.
    Yield,
    /// Stop the stream.
    Stop,
    /// Release the stream.
    Release,
    /// Nothing more.
    Finish { result: Result<(), SetupFailed> },
}

/// What came of a task.
#[derive(Clone, Copy, Debug, PartialEq, Eq)]
pub enum Report {
    /// The stream did what was asked, or failed.
    Status { result: Result<(), Error> },
    /// The transfer is under way.
    Transferring { token: u16 },
    /// There was a notification, or there was none.
    Notified { more: bool },
    /// The transfer is complete, or it is not.
    Checked { complete: bool },
    /// Time has passed.
    Resumed,
}

/// The stage of a playback.
#[derive(Clone, Copy, Debug, PartialEq, Eq)]
pub enum Stage {
    SettingUp { step: Setup },
    Filling,
    Draining,
    Completing,
    Yielding,
    Stopping,
    Releasing,
    Finished { result: Result<(), SetupFailed> },
}

/// How far a playback has come.
pub ghost struct PlayState {
    pub stage: Stage,
    /// The number of bytes that are played: whole periods.
    pub total_len: int,
    /// The number of bytes of a period.
    pub period: int,
    /// The number of bytes that have been transferred.
    pub offset: int,
    /// The transfers that are under way, oldest first.
    pub tokens: Seq<u16>,
}

impl PlayState {
    /// The state at the start of a playback of `len` bytes.
    pub open spec fn initial(len: int, period: int) -> PlayState {
        PlayState {
            stage: Stage::SettingUp { step: Setup::SetParams },
            total_len: len - len % period,
            period,
            offset: 0,
            tokens: Seq::empty(),
        }
    }

    /// What holds all the time.
    pub open spec fn wf(self) -> bool {
        &&& 0 < self.period
        &&& 0 <= self.offset <= self.total_len <= usize::MAX
        &&& self.total_len % self.period == 0
        &&& self.offset % self.period == 0
        &&& self.tokens.len() <= IN_FLIGHT
        &&& self.stage is Filling ==> self.tokens.len() < IN_FLIGHT && self.offset
            < self.total_len
        &&& self.stage is Completing ==> self.tokens.len() > 0
    }

    /// The same state at another stage.
    pub open spec fn to(self, stage: Stage) -> PlayState {
        PlayState { stage, ..self }
    }

    /// The next round, as long as there is something left to transfer or to wait for.
    pub open spec fn next_round(self) -> PlayState {
        if self.offset < self.total_len || self.tokens.len() > 0 {
            self.fill()
        } else {
            self.to(Stage::Stopping)
        }
    }

    /// Another transfer, if there is room and there is data.
    pub open spec fn fill(self) -> PlayState {
        if self.tokens.len() < IN_FLIGHT && self.offset < self.total_len {
            self.to(Stage::Filling)
        } else {
            self.to(Stage::Draining)
        }
    }

    /// The oldest transfer is asked for, if there is one.
    pub open spec fn complete(self) -> PlayState {
        if self.tokens.len() > 0 {
            self.to(Stage::Completing)
        } else {
            self.to(Stage::Yielding)
        }
    }

    /// The report is one on the task.
    pub open spec fn accepts(self, report: Report) -> bool {
        match report {
            Report::Status { .. } => self.stage is SettingUp || self.stage is Stopping
                || self.stage is Releasing,
            Report::Transferring { .. } => self.stage is Filling,
            Report::Notified { .. } => self.stage is Draining,
            Report::Checked { .. } => self.stage is Completing,
            Report::Resumed => self.stage is Yielding,
        }
    }

    /// The state after a report.
    pub open spec fn react(self, report: Report) -> PlayState {
        match report {
            Report::Status { result } => match self.stage {
                Stage::SettingUp { step } => match result {
                    Err(error) => self.to(
                        Stage::Finished { result: Err(SetupFailed { step, error }) },
                    ),
                    Ok(_) => match step {
                        Setup::SetParams => self.to(Stage::SettingUp { step: Setup::Prepare }),
                        Setup::Prepare => self.to(Stage::SettingUp { step: Setup::Start }),
                        Setup::Start => self.next_round(),
                    },
                },
                Stage::Stopping => self.to(Stage::Releasing),
                _ => self.to(Stage::Finished { result: Ok(()) }),
            },
            Report::Transferring { token } => PlayState {
                offset: self.offset + self.period,
                tokens: self.tokens.push(token),
                ..self
            }.fill(),
            Report::Notified { more } => if more {
                self
            } else {
                self.complete()
            },
            Report::Checked { complete } => if complete {
                PlayState { tokens: self.tokens.drop_first(), ..self }.complete()
            } else {
                self.to(Stage::Yielding)
            },
            Report::Resumed => self.next_round(),
        }
    }

    /// What is to be done at this stage.
    pub open spec fn task(self) -> Task {
        match self.stage {
            Stage::SettingUp { step } => Task::SetUp { step },
            Stage::Filling => Task::Transfer {
                offset: self.offset as usize,
                len: self.period as usize,
            },
            Stage::Draining => Task::PollNotification,
            Stage::Completing => Task::CheckTransfer { token: self.tokens[0] },
            Stage::Yielding => Task::Yield,
            Stage::Stopping => Task::Stop,
            Stage::Releasing => Task::Release,
            Stage::Finished { result } => Task::Finish { result },
        }
    }
}

/// A playback.
pub struct PcmPlayback {
    stage: Stage,
    total_len: usize,
    period_bytes: usize,
    offset: usize,
    submitted_tokens: VecDeque<u16>,
}

impl View for PcmPlayback {
    type V = PlayState;

    closed spec fn view(&self) -> PlayState {
        PlayState {
            stage: self.stage,
            total_len: self.total_len as int,
            period: self.period_bytes as int,
            offset: self.offset as int,
            tokens: self.submitted_tokens@,
        }
    }
}

impl PcmPlayback {
    /// A playback of `len` bytes in periods of `period_bytes` bytes. What is left over after
    /// the last whole period is not played.
    pub fn new(len: usize, period_bytes: usize) -> (playback: PcmPlayback)
        requires
            period_bytes > 0,
        ensures
            playback@ == PlayState::initial(len as int, period_bytes as int),
            playback@.wf(),
    {
        proof {
            whole_periods(len as int, period_bytes as int);
            vstd::arithmetic::div_mod::lemma_small_mod(0, period_bytes as nat);
        }
        let playback = PcmPlayback {
            stage: Stage::SettingUp { step: Setup::SetParams },
            total_len: len - len % period_bytes,
            period_bytes,
            offset: 0,
            submitted_tokens: VecDeque::new(),
        };
        assert(playback@.tokens =~= Seq::<u16>::empty());
        playback
    }

    /// What is to be done next.
    pub fn task(&self) -> (task: Task)
        requires
            self@.wf(),
        ensures
            task == self@.task(),
    {
        match self.stage {
            Stage::SettingUp { step } => Task::SetUp { step },
            Stage::Filling => Task::Transfer { offset: self.offset, len: self.period_bytes },
            Stage::Draining => Task::PollNotification,
            Stage::Completing => Task::CheckTransfer { token: self.submitted_tokens[0] },
            Stage::Yielding => Task::Yield,
            Stage::Stopping => Task::Stop,
            Stage::Releasing => Task::Release,
            Stage::Finished { result } => Task::Finish { result },
        }
    }

    /// Whether a report is one on the task.
    pub fn accepts(&self, report: &Report) -> (accepted: bool)
        ensures
            accepted == self@.accepts(*report),
    {
        match report {
            Report::Status { .. } => matches!(
                self.stage,
                Stage::SettingUp { .. } | Stage::Stopping | Stage::Releasing
            ),
            Report::Transferring { .. } => matches!(self.stage, Stage::Filling),
            Report::Notified { .. } => matches!(self.stage, Stage::Draining),
            Report::Checked { .. } => matches!(self.stage, Stage::Completing),
            Report::Resumed => matches!(self.stage, Stage::Yielding),
        }
    }

    /// Begins the next round, or the end.
    fn next_round(&mut self)
        ensures
            final(self)@ == old(self)@.next_round(),
    {
        if self.offset < self.total_len || self.submitted_tokens.len() > 0 {
            self.fill();
        } else {
            self.stage = Stage::Stopping;
        }
    }

    /// Begins another transfer, if there is room and there is data.
    fn fill(&mut self)
        ensures
            final(self)@ == old(self)@.fill(),
    {
        self.stage = if self.submitted_tokens.len() < IN_FLIGHT && self.offset < self.total_len {
            Stage::Filling
        } else {
            Stage::Draining
        };
    }

    /// Asks for the oldest transfer, if there is one.
    fn complete(&mut self)
        ensures
            final(self)@ == old(self)@.complete(),
    {
        self.stage = if self.submitted_tokens.len() > 0 {
            Stage::Completing
        } else {
            Stage::Yielding
        };
    }

    /// Takes the report on the task.
    pub fn resume(&mut self, report: Report)
        requires
            old(self)@.wf(),
            old(self)@.accepts(report),
        ensures
            final(self)@ == old(self)@.react(report),
            final(self)@.wf(),
    {
        match report {
            Report::Status { result } => match self.stage {
                Stage::SettingUp { step } => match result {
                    Err(error) => {
                        self.stage = Stage::Finished { result: Err(SetupFailed { step, error }) };
                    },
                    Ok(_) => match step {
                        Setup::SetParams => {
                            self.stage = Stage::SettingUp { step: Setup::Prepare };
                        },
                        Setup::Prepare => {
                            self.stage = Stage::SettingUp { step: Setup::Start };
                        },
                        Setup::Start => {
                            self.next_round();
                        },
                    },
                },
                Stage::Stopping => {
                    self.stage = Stage::Releasing;
                },
                _ => {
                    self.stage = Stage::Finished { result: Ok(()) };
                },
            },
            Report::Transferring { token } => {
                proof {
                    next_period_fits(self@);
                }
                self.submitted_tokens.push_back(token);
                self.offset = self.offset + self.period_bytes;
                self.fill();
            },
            Report::Notified { more } => {
                if !more {
                    self.complete();
                }
            },
            Report::Checked { complete } => {
                if complete {
                    let ghost before = self@;
                    let _token = self.submitted_tokens.pop_front();
                    assert(self@.tokens =~= before.tokens.drop_first());
                    self.complete();
                } else {
                    self.stage = Stage::Yielding;
                }
            },
            Report::Resumed => {
                self.next_round();
            },
        }
    }
}

/// The playback of a file of `len` bytes on a stream that supports the given rates, formats
/// and channels, and the parameters of the stream.
pub fn play_pcm_file(
    len: usize,
    rates: Option<RateSupport>,
    formats: Option<FormatSupport>,
    range: Option<ChannelRange>,
) -> (started: (PcmParams, PcmPlayback))
    requires
        params::chosen_channels(range) > 0,
    ensures
        ({
            let format = params::chosen_format(formats);
            let channels = params::chosen_channels(range);
            let period = params::period_of(params::frame_bytes(format, channels));
            &&& started.0 == PcmParams {
                rate: params::chosen_rate(rates),
                format,
                channels,
                period_bytes: period as u32,
                buffer_bytes: (params::BUFFER_PERIODS * period) as u32,
            }
            &&& started.1@ == PlayState::initial(len as int, period)
            &&& started.1@.wf()
        }),
{
    let params = choose_params(rates, formats, range);
    proof {
        assert(params::frame_bytes(params.format, params.channels) > 0) by (nonlinear_arith)
            requires
                params.channels > 0,
        ;
        params::period_is_least(params::frame_bytes(params.format, params.channels));
    }
    (params, PcmPlayback::new(len, params.period_bytes as usize))
}

/// Leaving out the rest leaves whole periods.
pub proof fn whole_periods(len: int, period: int)
    requires
        0 <= len,
        0 < period,
    ensures
        (len - len % period) % period == 0,
        0 <= len - len % period <= len < len - len % period + period,
{
    vstd::arithmetic::div_mod::lemma_fundamental_div_mod(len, period);
    vstd::arithmetic::div_mod::lemma_mod_division_less_than_divisor(len, period);
    vstd::arithmetic::mul::lemma_mul_is_commutative(period, len / period);
    vstd::arithmetic::div_mod::lemma_mod_multiples_basic(len / period, period);
    assert(0 <= len / period * period) by (nonlinear_arith)
        requires
            0 <= len,
            0 < period,
    ;
}

/// Where whole periods remain, the next one is among them.
pub proof fn next_period_fits(state: PlayState)
    requires
        state.wf(),
        state.offset < state.total_len,
    ensures
        state.offset + state.period <= state.total_len,
        (state.offset + state.period) % state.period == 0,
{
    let p = state.period;
    vstd::arithmetic::div_mod::lemma_fundamental_div_mod(state.offset, p);
    vstd::arithmetic::div_mod::lemma_fundamental_div_mod(state.total_len, p);
    let a = state.offset / p;
    let b = state.total_len / p;
    assert(a + 1 <= b) by (nonlinear_arith)
        requires
            p * a < p * b,
            p > 0,
    ;
    assert(p * (a + 1) <= p * b && p * (a + 1) == p * a + p) by (nonlinear_arith)
        requires
            a + 1 <= b,
            p > 0,
    ;
    vstd::arithmetic::mul::lemma_mul_is_commutative(p, a + 1);
    vstd::arithmetic::div_mod::lemma_mod_multiples_basic(a + 1, p);
}

} // verus!
