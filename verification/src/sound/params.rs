//! The parameters of a PCM stream.

use crate::error::Error;
use vstd::prelude::*;

verus! {

/// The least number of bytes of a period.
pub const MIN_PERIOD_BYTES: usize = 4096;

/// The number of periods of a stream's buffer.
pub const BUFFER_PERIODS: u32 = 8;

/// A sample rate.
#[derive(Clone, Copy, Debug, PartialEq, Eq, Structural)]
pub enum PcmRate {
    Rate32000,
    Rate44100,
    Rate48000,
}

/// A sample format.
#[derive(Clone, Copy, Debug, PartialEq, Eq, Structural)]
pub enum PcmFormat {
    S16,
    S24,
    S32,
}

/// The rates of a stream, as far as they matter.
#[derive(Clone, Copy, Debug, PartialEq, Eq, Structural)]
pub struct RateSupport {
    pub rate_44100: bool,
    pub rate_48000: bool,
}

/// The formats of a stream, as far as they matter.
#[derive(Clone, Copy, Debug, PartialEq, Eq, Structural)]
pub struct FormatSupport {
    pub s16: bool,
    pub s24: bool,
}

/// The numbers of channels of a stream, both ends included.
#[derive(Clone, Copy, Debug, PartialEq, Eq, Structural)]
pub struct ChannelRange {
    pub start: u8,
    pub end: u8,
}

/// The parameters of a stream.
#[derive(Clone, Copy, Debug, PartialEq, Eq, Structural)]
pub struct PcmParams {
    pub rate: PcmRate,
    pub format: PcmFormat,
    pub channels: u8,
    pub period_bytes: u32,
    pub buffer_bytes: u32,
}

/// The features of a stream: none.
pub fn pcm_features() -> (bits: u32)
    ensures
        bits == 0,
{
    0
}

/// Why there is no stream to play on.
#[derive(Clone, Copy, Debug, PartialEq, Eq, Structural)]
pub enum NoStream {
    /// There is no sound device.
    DeviceMissing,
    /// The device has no output streams.
    NoOutputStreams,
    /// The device does not tell its streams.
    Failed { error: Error },
}

/// The stream to play on: the first output stream. `streams` is the device's answer, and
/// nothing without a device.
pub fn select_stream(streams: Option<Result<Vec<u32>, Error>>) -> (stream: Result<u32, NoStream>)
    ensures
        stream == (match streams {
            None => Err(NoStream::DeviceMissing),
            Some(Err(error)) => Err(NoStream::Failed { error }),
            Some(Ok(ids)) => if ids@.len() > 0 {
                Ok(ids@[0])
            } else {
                Err(NoStream::NoOutputStreams)
            },
        }),
{
    match streams {
        None => Err(NoStream::DeviceMissing),
        Some(Err(error)) => Err(NoStream::Failed { error }),
        Some(Ok(ids)) => {
            if ids.len() > 0 {
                Ok(ids[0])
            } else {
                Err(NoStream::NoOutputStreams)
            }
        },
    }
}

/// The rate to play at: 44.1 kHz, or the next best that the stream has. A stream that does
/// not tell its rates is taken to have it.
pub open spec fn chosen_rate(rates: Option<RateSupport>) -> PcmRate {
    match rates {
        None => PcmRate::Rate44100,
        Some(support) => if support.rate_44100 {
            PcmRate::Rate44100
        } else if support.rate_48000 {
            PcmRate::Rate48000
        } else {
            PcmRate::Rate32000
        },
    }
}

/// The format to play in: 16 bits, or the next best that the stream has.
pub open spec fn chosen_format(formats: Option<FormatSupport>) -> PcmFormat {
    match formats {
        None => PcmFormat::S16,
        Some(support) => if support.s16 {
            PcmFormat::S16
        } else if support.s24 {
            PcmFormat::S24
        } else {
            PcmFormat::S32
        },
    }
}

/// The number of channels: two, or the fewest that the stream has.
pub open spec fn chosen_channels(range: Option<ChannelRange>) -> u8 {
    match range {
        None => 2,
        Some(range) => if range.start <= 2 <= range.end {
            2
        } else {
            range.start
        },
    }
}

/// The number of bytes of a sample.
pub open spec fn bytes_per_sample(format: PcmFormat) -> int {
    match format {
        PcmFormat::S16 => 2,
        PcmFormat::S24 => 3,
        PcmFormat::S32 => 4,
    }
}

/// The number of bytes of a frame, which is a sample of each channel.
pub open spec fn frame_bytes(format: PcmFormat, channels: u8) -> int {
    bytes_per_sample(format) * channels
}

/// The number of bytes of a period: [`MIN_PERIOD_BYTES`], rounded up to whole frames.
pub open spec fn period_of(frame: int) -> int {
    (MIN_PERIOD_BYTES + frame - 1) / frame * frame
}

/// The parameters for a stream that supports the given rates, formats and channels.
pub fn choose_params(
    rates: Option<RateSupport>,
    formats: Option<FormatSupport>,
    range: Option<ChannelRange>,
) -> (params: PcmParams)
    requires
        chosen_channels(range) > 0,
    ensures
        params.rate == chosen_rate(rates),
        params.format == chosen_format(formats),
        params.channels == chosen_channels(range),
        params.period_bytes == period_of(frame_bytes(params.format, params.channels)),
        params.buffer_bytes == BUFFER_PERIODS * params.period_bytes,
{
    let rate = match rates {
        None => PcmRate::Rate44100,
        Some(support) => {
            if support.rate_44100 {
                PcmRate::Rate44100
            } else if support.rate_48000 {
                PcmRate::Rate48000
            } else {
                PcmRate::Rate32000
            }
        },
    };
    let format = match formats {
        None => PcmFormat::S16,
        Some(support) => {
            if support.s16 {
                PcmFormat::S16
            } else if support.s24 {
                PcmFormat::S24
            } else {
                PcmFormat::S32
            }
        },
    };
    let channels: u8 = match range {
        None => 2,
        Some(range) => {
            if range.start <= 2 && 2 <= range.end {
                2
            } else {
                range.start
            }
        },
    };
    let bytes_per_sample: usize = match format {
        PcmFormat::S16 => 2,
        PcmFormat::S24 => 3,
        PcmFormat::S32 => 4,
    };
    assert(0 < bytes_per_sample * channels <= 1020) by (nonlinear_arith)
        requires
            2 <= bytes_per_sample <= 4,
            0 < channels <= 255,
    ;
    let frame_size: usize = bytes_per_sample * (channels as usize);
    let mut period_bytes: usize = MIN_PERIOD_BYTES;
    proof {
        period_is_least(frame_size as int);
    }
    if period_bytes % frame_size != 0 {
        period_bytes = ((period_bytes + frame_size - 1) / frame_size) * frame_size;
    }
    let period: u32 = period_bytes as u32;
    PcmParams {
        rate,
        format,
        channels,
        period_bytes: period,
        buffer_bytes: BUFFER_PERIODS * period,
    }
}

/// A period is the smallest number of whole frames that has at least [`MIN_PERIOD_BYTES`]
/// bytes.
pub proof fn period_is_least(frame: int)
    requires
        frame > 0,
    ensures
        period_of(frame) % frame == 0,
        MIN_PERIOD_BYTES <= period_of(frame) < MIN_PERIOD_BYTES + frame,
        MIN_PERIOD_BYTES as int % frame == 0 ==> period_of(frame) == MIN_PERIOD_BYTES,
        forall|other: int|
            MIN_PERIOD_BYTES <= other && #[trigger] (other % frame) == 0 ==> period_of(frame)
                <= other,
{
    let sum = MIN_PERIOD_BYTES + frame - 1;
    let quotient = sum / frame;
    vstd::arithmetic::div_mod::lemma_fundamental_div_mod(sum, frame);
    vstd::arithmetic::div_mod::lemma_mod_division_less_than_divisor(sum, frame);
    vstd::arithmetic::mul::lemma_mul_is_commutative(quotient, frame);
    vstd::arithmetic::div_mod::lemma_mod_multiples_basic(quotient, frame);
    assert forall|other: int|
        MIN_PERIOD_BYTES <= other && #[trigger] (other % frame) == 0 implies period_of(frame)
        <= other by {
        let k = other / frame;
        vstd::arithmetic::div_mod::lemma_fundamental_div_mod(other, frame);
        assert(other == frame * k);
        assert(quotient <= k) by (nonlinear_arith)
            requires
                quotient * frame <= MIN_PERIOD_BYTES + frame - 1,
                MIN_PERIOD_BYTES <= frame * k,
                frame > 0,
        ;
        assert(quotient * frame <= k * frame) by (nonlinear_arith)
            requires
                quotient <= k,
                frame > 0,
        ;
    }
    if MIN_PERIOD_BYTES as int % frame == 0 {
        assert(period_of(frame) <= MIN_PERIOD_BYTES);
    }
}

/// The rate that is played at: 44.1 kHz wherever the stream has it, or does not tell its rates;
/// 48 kHz only where the stream has it; and what is left only where the stream has neither.
pub proof fn rate_is_kept_where_supported(
    rates: Option<RateSupport>,
    formats: Option<FormatSupport>,
    range: Option<ChannelRange>,
    params: PcmParams,
)
    requires
        call_ensures(choose_params, (rates, formats, range), params),
    ensures
        rates is None ==> params.rate is Rate44100,
        rates matches Some(support) ==> {
            &&& support.rate_44100 <==> params.rate is Rate44100
            &&& params.rate is Rate48000 <==> support.rate_48000 && !support.rate_44100
            &&& params.rate is Rate32000 <==> !support.rate_48000 && !support.rate_44100
        },
{
}

/// The format that is played in: 16 bits wherever the stream has them, or does not tell its
/// formats; 24 bits only where the stream has them; and 32 bits only where it has neither.
pub proof fn format_is_kept_where_supported(
    rates: Option<RateSupport>,
    formats: Option<FormatSupport>,
    range: Option<ChannelRange>,
    params: PcmParams,
)
    requires
        call_ensures(choose_params, (rates, formats, range), params),
    ensures
        formats is None ==> params.format is S16,
        formats matches Some(support) ==> {
            &&& support.s16 <==> params.format is S16
            &&& params.format is S24 <==> support.s24 && !support.s16
            &&& params.format is S32 <==> !support.s24 && !support.s16
        },
{
}

/// The channels that are played: two wherever the stream has two, or does not tell; otherwise
/// the fewest that it has.
pub proof fn channels_are_kept_where_supported(
    rates: Option<RateSupport>,
    formats: Option<FormatSupport>,
    range: Option<ChannelRange>,
    params: PcmParams,
)
    requires
        call_ensures(choose_params, (rates, formats, range), params),
    ensures
        range is None ==> params.channels == 2,
        range matches Some(range) ==> {
            &&& range.start <= 2 && 2 <= range.end ==> params.channels == 2
            &&& range.start > 2 || range.end < 2 ==> params.channels == range.start
            &&& range.start <= range.end ==> range.start <= params.channels <= range.end
        },
{
}

/// The periods and the buffer fit the format: a period is made of whole frames, of which each
/// has a sample of two, three or four bytes for every channel; it has at least 4096 bytes, and
/// with one frame less it would have fewer; and the buffer has eight periods.
pub proof fn periods_fit_the_format(
    rates: Option<RateSupport>,
    formats: Option<FormatSupport>,
    range: Option<ChannelRange>,
    params: PcmParams,
)
    requires
        call_ensures(choose_params, (rates, formats, range), params),
        params.channels > 0,
    ensures
        ({
            let sample = match params.format {
                PcmFormat::S16 => 2int,
                PcmFormat::S24 => 3int,
                PcmFormat::S32 => 4int,
            };
            let frame = sample * params.channels;
            &&& params.period_bytes as int % frame == 0
            &&& 4096 <= params.period_bytes < 4096 + frame
            &&& params.buffer_bytes == 8 * params.period_bytes
        }),
{
    let frame = frame_bytes(params.format, params.channels);
    assert(frame > 0) by (nonlinear_arith)
        requires
            frame == bytes_per_sample(params.format) * params.channels,
            bytes_per_sample(params.format) >= 2,
            params.channels > 0,
    ;
    period_is_least(frame);
}

} // verus!
