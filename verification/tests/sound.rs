use d3os_virtio::error::Error;
use d3os_virtio::sound::params::{
    choose_params, pcm_features, select_stream, ChannelRange, FormatSupport, NoStream, PcmFormat, PcmParams,
    PcmRate, RateSupport,
};
use d3os_virtio::sound::playback::{
    play_pcm_file, PcmPlayback, Report, Setup, SetupFailed, Task,
};

#[test]
fn first_output_stream_is_played_on() {
    assert_eq!(select_stream(Some(Ok(vec![3, 1]))), Ok(3));
    assert_eq!(select_stream(Some(Ok(vec![]))), Err(NoStream::NoOutputStreams));
    assert_eq!(select_stream(None), Err(NoStream::DeviceMissing));
    assert_eq!(
        select_stream(Some(Err(Error::IoError))),
        Err(NoStream::Failed { error: Error::IoError })
    );
}

#[test]
fn parameters_are_the_wanted_ones_if_supported() {
    let wanted = PcmParams {
        rate: PcmRate::Rate44100,
        format: PcmFormat::S16,
        channels: 2,
        period_bytes: 4096,
        buffer_bytes: 32768,
    };
    assert_eq!(choose_params(None, None, None), wanted);
    assert_eq!(
        choose_params(
            Some(RateSupport { rate_44100: true, rate_48000: true }),
            Some(FormatSupport { s16: true, s24: true }),
            Some(ChannelRange { start: 1, end: 2 }),
        ),
        wanted
    );
}

#[test]
fn parameters_fall_back() {
    let params = choose_params(
        Some(RateSupport { rate_44100: false, rate_48000: true }),
        Some(FormatSupport { s16: false, s24: true }),
        Some(ChannelRange { start: 5, end: 6 }),
    );
    // A frame has 15 bytes, and 274 of them have 4110.
    assert_eq!(
        params,
        PcmParams {
            rate: PcmRate::Rate48000,
            format: PcmFormat::S24,
            channels: 5,
            period_bytes: 4110,
            buffer_bytes: 32880,
        }
    );
    let params = choose_params(
        Some(RateSupport { rate_44100: false, rate_48000: false }),
        Some(FormatSupport { s16: false, s24: false }),
        Some(ChannelRange { start: 1, end: 1 }),
    );
    assert_eq!(
        (params.rate, params.format, params.channels, params.period_bytes),
        (PcmRate::Rate32000, PcmFormat::S32, 1, 4096)
    );
}

fn status(playback: &mut PcmPlayback, result: Result<(), Error>) {
    let report = Report::Status { result };
    assert!(playback.accepts(&report));
    playback.resume(report);
}

fn set_up(playback: &mut PcmPlayback) {
    for step in [Setup::SetParams, Setup::Prepare, Setup::Start] {
        assert_eq!(playback.task(), Task::SetUp { step });
        status(playback, Ok(()));
    }
}

#[test]
fn file_is_played_in_whole_periods() {
    let data: Vec<u8> = (0..20 * 4096 + 100u32).map(|i| (i / 7) as u8).collect();
    let (params, mut playback) = play_pcm_file(data.len(), None, None, None);
    assert_eq!(params.period_bytes, 4096);
    set_up(&mut playback);
    let mut heard: Vec<u8> = Vec::new();
    let mut next_token: u16 = 100;
    let mut expected_token: u16 = 100;
    let mut under_way = 0;
    let mut patience = 0;
    loop {
        let report = match playback.task() {
            Task::Transfer { offset, len } => {
                heard.extend_from_slice(&data[offset..offset + len]);
                under_way += 1;
                assert!(under_way <= 8);
                next_token += 1;
                Report::Transferring { token: next_token - 1 }
            }
            Task::PollNotification => {
                patience += 1;
                Report::Notified { more: patience % 3 == 0 }
            }
            Task::CheckTransfer { token } => {
                assert_eq!(token, expected_token);
                patience += 1;
                let complete = patience % 2 == 0;
                if complete {
                    under_way -= 1;
                    expected_token += 1;
                }
                Report::Checked { complete }
            }
            Task::Yield => Report::Resumed,
            Task::Stop => break,
            _ => panic!("unexpected task"),
        };
        assert!(playback.accepts(&report));
        playback.resume(report);
    }
    assert_eq!(heard, data[..20 * 4096].to_vec());
    assert_eq!(expected_token, 120);
    status(&mut playback, Err(Error::IoError));
    assert_eq!(playback.task(), Task::Release);
    status(&mut playback, Err(Error::IoError));
    assert_eq!(playback.task(), Task::Finish { result: Ok(()) });
}

#[test]
fn window_is_filled_before_anything_is_awaited() {
    let mut playback = PcmPlayback::new(100 * 64, 64);
    set_up(&mut playback);
    for i in 0..8 {
        assert_eq!(playback.task(), Task::Transfer { offset: 64 * i, len: 64 });
        playback.resume(Report::Transferring { token: i as u16 });
    }
    assert_eq!(playback.task(), Task::PollNotification);
    assert!(!playback.accepts(&Report::Resumed));
    playback.resume(Report::Notified { more: false });
    assert_eq!(playback.task(), Task::CheckTransfer { token: 0 });
    playback.resume(Report::Checked { complete: false });
    assert_eq!(playback.task(), Task::Yield);
    playback.resume(Report::Resumed);
    assert_eq!(playback.task(), Task::PollNotification);
}

#[test]
fn too_short_a_file_is_not_played() {
    let mut playback = PcmPlayback::new(63, 64);
    set_up(&mut playback);
    assert_eq!(playback.task(), Task::Stop);
}

#[test]
fn failure_of_the_setup_ends_the_playback() {
    for (ok_steps, step) in [(0, Setup::SetParams), (1, Setup::Prepare), (2, Setup::Start)] {
        let mut playback = PcmPlayback::new(640, 64);
        for _ in 0..ok_steps {
            status(&mut playback, Ok(()));
        }
        status(&mut playback, Err(Error::NotReady));
        let error = Error::NotReady;
        assert_eq!(
            playback.task(),
            Task::Finish { result: Err(SetupFailed { step, error }) }
        );
        assert!(!playback.accepts(&Report::Status { result: Ok(()) }));
    }
}

#[test]
fn stream_has_no_features() {
    assert_eq!(pcm_features(), 0);
}
