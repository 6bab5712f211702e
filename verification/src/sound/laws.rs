//! What holds of every playback, whatever the device reports.

use crate::error::Error;
use crate::sound::params::{ChannelRange, FormatSupport, PcmParams, RateSupport};
use crate::sound::playback::{
    next_period_fits, play_pcm_file, whole_periods, PcmPlayback, PlayState, Report, Setup,
    SetupFailed, Stage, Task, IN_FLIGHT,
};
use vstd::prelude::*;

verus! {

/// The state after some reports.
pub open spec fn played(state: PlayState, reports: Seq<Report>) -> PlayState
    decreases reports.len(),
{
    if reports.len() == 0 {
        state
    } else {
        played(state, reports.drop_last()).react(reports.last())
    }
}

/// Each report is one on the task that it answers.
pub open spec fn all_accepted(state: PlayState, reports: Seq<Report>) -> bool
    decreases reports.len(),
{
    reports.len() > 0 ==> {
        &&& all_accepted(state, reports.drop_last())
        &&& played(state, reports.drop_last()).accepts(reports.last())
    }
}

/// The bytes of `data` that were transferred, in the order of their transfers.
pub open spec fn transferred(state: PlayState, reports: Seq<Report>, data: Seq<u8>) -> Seq<u8>
    decreases reports.len(),
{
    if reports.len() == 0 {
        Seq::empty()
    } else {
        let rest = reports.drop_last();
        let before = transferred(state, rest, data);
        if reports.last() is Transferring {
            let at = played(state, rest);
            before + data.subrange(at.offset, at.offset + at.period)
        } else {
            before
        }
    }
}

/// The transfers that were begun, in order.
pub open spec fn begun(reports: Seq<Report>) -> Seq<u16>
    decreases reports.len(),
{
    if reports.len() == 0 {
        Seq::empty()
    } else {
        match reports.last() {
            Report::Transferring { token } => begun(reports.drop_last()).push(token),
            _ => begun(reports.drop_last()),
        }
    }
}

/// The transfers that were found complete, in order.
pub open spec fn completed(state: PlayState, reports: Seq<Report>) -> Seq<u16>
    decreases reports.len(),
{
    if reports.len() == 0 {
        Seq::empty()
    } else {
        let rest = reports.drop_last();
        let before = completed(state, rest);
        if reports.last() == (Report::Checked { complete: true }) {
            before.push(played(state, rest).tokens[0])
        } else {
            before
        }
    }
}

/// Every report that is one on its task keeps the state in order: never are more than
/// [`IN_FLIGHT`] transfers under way, and the transferred bytes are whole periods.
pub proof fn report_keeps_wf(state: PlayState, report: Report)
    requires
        state.wf(),
        state.accepts(report),
    ensures
        state.react(report).wf(),
        state.react(report).period == state.period,
        state.react(report).total_len == state.total_len,
{
    if report is Transferring {
        next_period_fits(state);
    }
}

/// In a playback, what has been transferred is the beginning of the data: no byte is left
/// out, repeated or out of order.
pub proof fn data_in_order(len: int, period: int, reports: Seq<Report>, data: Seq<u8>)
    requires
        data.len() == len <= usize::MAX,
        0 < period,
        all_accepted(PlayState::initial(len, period), reports),
    ensures
        played(PlayState::initial(len, period), reports).wf(),
        played(PlayState::initial(len, period), reports).period == period,
        played(PlayState::initial(len, period), reports).total_len == len - len % period,
        transferred(PlayState::initial(len, period), reports, data) == data.take(
            played(PlayState::initial(len, period), reports).offset,
        ),
    decreases reports.len(),
{
    let start = PlayState::initial(len, period);
    whole_periods(len, period);
    if reports.len() == 0 {
        vstd::arithmetic::div_mod::lemma_small_mod(0, period as nat);
        assert(data.take(0) =~= Seq::<u8>::empty());
    } else {
        let rest = reports.drop_last();
        let at = played(start, rest);
        data_in_order(len, period, rest, data);
        report_keeps_wf(at, reports.last());
        if reports.last() is Transferring {
            next_period_fits(at);
            assert(data.take(at.offset + period) =~= data.take(at.offset) + data.subrange(
                at.offset,
                at.offset + period,
            ));
        }
    }
}

/// Transfers are found complete in the order in which they were begun; those that are not
/// complete are under way.
pub proof fn transfers_complete_in_order(len: int, period: int, reports: Seq<Report>)
    requires
        0 <= len <= usize::MAX,
        0 < period,
        all_accepted(PlayState::initial(len, period), reports),
    ensures
        begun(reports) == completed(PlayState::initial(len, period), reports) + played(
            PlayState::initial(len, period),
            reports,
        ).tokens,
        played(PlayState::initial(len, period), reports).tokens.len() <= IN_FLIGHT,
    decreases reports.len(),
{
    let start = PlayState::initial(len, period);
    let data = Seq::new(len as nat, |i: int| 0u8);
    data_in_order(len, period, reports, data);
    if reports.len() == 0 {
        assert(begun(reports) =~= completed(start, reports) + played(start, reports).tokens);
    } else {
        let rest = reports.drop_last();
        let at = played(start, rest);
        transfers_complete_in_order(len, period, rest);
        data_in_order(len, period, rest, data);
        assert(begun(reports) =~= completed(start, reports) + played(start, reports).tokens);
    }
}

/// The end of a playback: when the stream is stopped, every whole period of the data has
/// been transferred, and every transfer has been found complete.
pub proof fn stopped_when_all_is_played(len: int, period: int, reports: Seq<Report>, data: Seq<u8>)
    requires
        data.len() == len <= usize::MAX,
        0 < period,
        all_accepted(PlayState::initial(len, period), reports),
        played(PlayState::initial(len, period), reports).stage is Stopping,
    ensures
        transferred(PlayState::initial(len, period), reports, data) == data.take(
            len - len % period,
        ),
        completed(PlayState::initial(len, period), reports) == begun(reports),
{
    let start = PlayState::initial(len, period);
    data_in_order(len, period, reports, data);
    transfers_complete_in_order(len, period, reports);
    stopping_is_done(len, period, reports);
    assert(begun(reports) =~= completed(start, reports));
}

/// A stream is stopped, and released, only when nothing is left to transfer or to wait for.
proof fn stopping_is_done(len: int, period: int, reports: Seq<Report>)
    requires
        0 <= len <= usize::MAX,
        0 < period,
        all_accepted(PlayState::initial(len, period), reports),
    ensures
        ({
            let at = played(PlayState::initial(len, period), reports);
            at.stage is Stopping || at.stage is Releasing || at.stage == (Stage::Finished {
                result: Ok(()),
            }) ==> at.offset == at.total_len && at.tokens.len() == 0
        }),
    decreases reports.len(),
{
    let data = Seq::new(len as nat, |i: int| 0u8);
    data_in_order(len, period, reports, data);
    if reports.len() > 0 {
        data_in_order(len, period, reports.drop_last(), data);
        stopping_is_done(len, period, reports.drop_last());
    }
}

/// A playback that ends well has transferred every whole period and waited for every
/// transfer; one that does not has transferred nothing.
pub proof fn playback_is_all_or_nothing(len: int, period: int, reports: Seq<Report>)
    requires
        0 <= len <= usize::MAX,
        0 < period,
        all_accepted(PlayState::initial(len, period), reports),
    ensures
        match played(PlayState::initial(len, period), reports).stage {
            Stage::Finished { result: Ok(_) } => {
                &&& played(PlayState::initial(len, period), reports).offset == len - len % period
                &&& completed(PlayState::initial(len, period), reports) == begun(reports)
            },
            Stage::Finished { result: Err(_) } => begun(reports) == Seq::<u16>::empty(),
            _ => true,
        },
{
    let start = PlayState::initial(len, period);
    data_in_order(len, period, reports, Seq::new(len as nat, |i: int| 0u8));
    transfers_complete_in_order(len, period, reports);
    stopping_is_done(len, period, reports);
    setup_transfers_nothing(start, reports);
    if played(start, reports).tokens.len() == 0 {
        assert(begun(reports) =~= completed(start, reports));
    }
}

/// Nothing is transferred before the stream is set up.
proof fn setup_transfers_nothing(start: PlayState, reports: Seq<Report>)
    requires
        start.stage == (Stage::SettingUp { step: Setup::SetParams }),
        all_accepted(start, reports),
    ensures
        match played(start, reports).stage {
            Stage::SettingUp { .. } => begun(reports) == Seq::<u16>::empty(),
            Stage::Finished { result: Err(_) } => begun(reports) == Seq::<u16>::empty(),
            _ => true,
        },
    decreases reports.len(),
{
    if reports.len() > 0 {
        setup_transfers_nothing(start, reports.drop_last());
    }
}

/// A file is played as the stream can play it: with its 16-bit samples, at 44.1 kHz and on two
/// channels wherever the stream has them, in periods of the size that the stream is told, and
/// as far as whole periods go.
pub proof fn file_is_played_as_it_is(
    len: usize,
    rates: Option<RateSupport>,
    formats: Option<FormatSupport>,
    range: Option<ChannelRange>,
    started: (PcmParams, PcmPlayback),
)
    requires
        call_ensures(play_pcm_file, (len, rates, formats, range), started),
    ensures
        ({
            let params = started.0;
            let state = started.1@;
            &&& params.format is S16 <==> (formats matches Some(support) ==> support.s16)
            &&& params.format is S24 ==> (formats matches Some(support) && support.s24)
            &&& params.rate is Rate44100 <==> (rates matches Some(support) ==> support.rate_44100)
            &&& params.rate is Rate48000 ==> (rates matches Some(support) && support.rate_48000)
            &&& (range matches Some(range) ==> range.start <= 2 <= range.end) ==> params.channels
                == 2
            &&& (range matches Some(range) && !(range.start <= 2 <= range.end)) ==> params.channels
                == range->0.start
            &&& params.channels > 0 ==> {
                &&& state.period == params.period_bytes
                &&& 0 <= state.total_len <= len < state.total_len + state.period
                &&& state.total_len % state.period == 0
                &&& params.buffer_bytes == 8 * params.period_bytes
            }
            &&& state.offset == 0
            &&& state.tokens.len() == 0
            &&& state.task() == (Task::SetUp { step: Setup::SetParams })
        }),
{
    let params = started.0;
    if params.channels > 0 {
        let frame = crate::sound::params::frame_bytes(params.format, params.channels);
        let sample = crate::sound::params::bytes_per_sample(params.format);
        assert(0 < frame <= 1020) by (nonlinear_arith)
            requires
                frame == sample * params.channels,
                2 <= sample <= 4,
                0 < params.channels <= 255,
        ;
        crate::sound::params::period_is_least(frame);
        whole_periods(len as int, params.period_bytes as int);
    }
}

/// The stream is set up in three steps, its parameters first, then its preparation, then its
/// start; the first step that fails is the end, with its error.
pub proof fn setup_takes_its_course(len: int, period: int, error: Error)
    ensures
        ({
            let done = Report::Status { result: Ok(()) };
            let failed = Report::Status { result: Err(error) };
            let s0 = PlayState::initial(len, period);
            let s1 = s0.react(done);
            let s2 = s1.react(done);
            &&& s0.task() == (Task::SetUp { step: Setup::SetParams })
            &&& s1.task() == (Task::SetUp { step: Setup::Prepare })
            &&& s2.task() == (Task::SetUp { step: Setup::Start })
            &&& s0.react(failed).task() == (Task::Finish {
                result: Err(SetupFailed { step: Setup::SetParams, error }),
            })
            &&& s1.react(failed).task() == (Task::Finish {
                result: Err(SetupFailed { step: Setup::Prepare, error }),
            })
            &&& s2.react(failed).task() == (Task::Finish {
                result: Err(SetupFailed { step: Setup::Start, error }),
            })
        }),
{
}

/// What a round begins with: a transfer if fewer than eight are under way and there is data, a
/// look for notifications if not, and the end if there is neither data nor a transfer.
pub open spec fn round_begins(state: PlayState, task: Task) -> bool {
    if state.offset >= state.total_len && state.tokens.len() == 0 {
        task is Stop
    } else if state.tokens.len() < 8 && state.offset < state.total_len {
        task == (Task::Transfer { offset: state.offset as usize, len: state.period as usize })
    } else {
        task is PollNotification
    }
}

/// What each report leads to, once the stream has been set up.
pub proof fn each_report_has_its_consequence(state: PlayState, report: Report)
    requires
        state.wf(),
        state.accepts(report),
    ensures
        ({
            let after = state.react(report);
            let tokens = state.tokens;
            match report {
                Report::Status { .. } => {
                    &&& state.stage is Stopping ==> after.task() is Release
                    &&& state.stage is Releasing ==> after.task() == (Task::Finish {
                        result: Ok(()),
                    })
                    &&& after.offset == state.offset && after.tokens == tokens
                },
                Report::Transferring { token } => {
                    &&& after.offset == state.offset + state.period
                    &&& after.tokens == tokens.push(token)
                    &&& if tokens.len() + 1 < 8 && after.offset < state.total_len {
                        after.task() == (Task::Transfer {
                            offset: after.offset as usize,
                            len: state.period as usize,
                        })
                    } else {
                        after.task() is PollNotification
                    }
                },
                Report::Notified { more } => {
                    &&& after.offset == state.offset && after.tokens == tokens
                    &&& if more {
                        after.task() is PollNotification
                    } else if tokens.len() > 0 {
                        after.task() == (Task::CheckTransfer { token: tokens[0] })
                    } else {
                        after.task() is Yield
                    }
                },
                Report::Checked { complete } => {
                    &&& after.offset == state.offset
                    &&& after.tokens == (if complete {
                        tokens.skip(1)
                    } else {
                        tokens
                    })
                    &&& if complete && tokens.len() > 1 {
                        after.task() == (Task::CheckTransfer { token: tokens[1] })
                    } else {
                        after.task() is Yield
                    }
                },
                Report::Resumed => {
                    &&& after.offset == state.offset && after.tokens == tokens
                    &&& round_begins(state, after.task())
                },
            }
        }),
{
    if let Report::Checked { complete } = report {
        assert(state.tokens.drop_first() =~= state.tokens.skip(1));
    }
}

/// The first round begins when the stream has been started.
pub proof fn start_begins_the_first_round(state: PlayState)
    requires
        state.stage == (Stage::SettingUp { step: Setup::Start }),
    ensures
        round_begins(state, state.react(Report::Status { result: Ok(()) }).task()),
{
}

/// The transfers go through the data without a gap: each begins where the one before it has
/// ended, has the size of a period and lies inside the data.
pub proof fn transfers_are_consecutive(len: int, period: int, reports: Seq<Report>)
    requires
        0 <= len <= usize::MAX,
        0 < period,
        all_accepted(PlayState::initial(len, period), reports),
    ensures
        ({
            let state = played(PlayState::initial(len, period), reports);
            let done = begun(reports).len() * period;
            &&& state.offset == done
            &&& 0 <= done <= len
            &&& state.stage is Filling ==> done + period <= len && state.task() == (Task::Transfer {
                offset: done as usize,
                len: period as usize,
            })
        }),
    decreases reports.len(),
{
    let start = PlayState::initial(len, period);
    let data = Seq::new(len as nat, |i: int| 0u8);
    data_in_order(len, period, reports, data);
    whole_periods(len, period);
    if reports.len() == 0 {
        assert(0 * period == 0) by (nonlinear_arith);
    } else {
        let rest = reports.drop_last();
        transfers_are_consecutive(len, period, rest);
        let count = begun(rest).len() as int;
        assert((count + 1) * period == count * period + period) by (nonlinear_arith);
    }
    let state = played(start, reports);
    if state.stage is Filling {
        next_period_fits(state);
    }
}

/// Every report on a task is taken.
pub proof fn reports_on_the_task_are_taken(state: PlayState, report: Report)
    ensures
        state.accepts(report) <==> match report {
            Report::Status { .. } => state.task() is SetUp || state.task() is Stop || state.task()
                is Release,
            Report::Transferring { .. } => state.task() is Transfer,
            Report::Notified { .. } => state.task() is PollNotification,
            Report::Checked { .. } => state.task() is CheckTransfer,
            Report::Resumed => state.task() is Yield,
        },
{
}

} // verus!
