use sonora::stream_config::{CheckedStreamConfig, SampleRate, StreamConfig, StreamConfigError};

#[test]
fn sample_rate_try_from_hz_rejects_unsupported_rate() {
    let err = SampleRate::try_from(7_900).unwrap_err();
    assert_eq!(
        err,
        StreamConfigError::UnsupportedSampleRate {
            sample_rate_hz: 7_900,
        }
    );
}

#[test]
fn checked_stream_config_try_from_hz_rejects_unsupported_rate() {
    let err = CheckedStreamConfig::try_from_hz(44_100, 1).unwrap_err();
    assert_eq!(
        err,
        StreamConfigError::UnsupportedSampleRate {
            sample_rate_hz: 44_100,
        }
    );
}

#[test]
fn checked_stream_config_accepts_valid_values() {
    let checked = CheckedStreamConfig::new(SampleRate::Hz48000, 2);
    assert_eq!(checked.sample_rate(), SampleRate::Hz48000);
    assert_eq!(checked.sample_rate_hz(), 48_000);
    assert_eq!(checked.num_channels(), 2);

    let legacy: StreamConfig = checked.into();
    assert_eq!(legacy.sample_rate_hz(), 48_000);
    assert_eq!(legacy.num_channels(), 2);
    assert_eq!(legacy.num_frames(), 480);
    assert_eq!(legacy.num_samples(), 960);
}

#[test]
fn sample_rate_try_from_accepts_each_supported_rate() {
    assert_eq!(SampleRate::try_from(8_000), Ok(SampleRate::Hz8000));
    assert_eq!(SampleRate::try_from(16_000), Ok(SampleRate::Hz16000));
    assert_eq!(SampleRate::try_from(32_000), Ok(SampleRate::Hz32000));
    assert_eq!(SampleRate::try_from(48_000), Ok(SampleRate::Hz48000));
    assert_eq!(
        SampleRate::try_from(0),
        Err(StreamConfigError::UnsupportedSampleRate { sample_rate_hz: 0 })
    );
}

#[test]
fn sample_rate_as_hz_round_trips() {
    for rate in [SampleRate::Hz8000, SampleRate::Hz16000, SampleRate::Hz32000, SampleRate::Hz48000] {
        assert_eq!(SampleRate::try_from(rate.as_hz()), Ok(rate));
    }
}

#[test]
fn checked_stream_config_try_from_hz_accepts_supported_rate() {
    let checked = CheckedStreamConfig::try_from_hz(16_000, 1).unwrap();
    assert_eq!(checked.sample_rate(), SampleRate::Hz16000);
    assert_eq!(checked.num_channels(), 1);
    let legacy = checked.into_stream_config();
    assert_eq!(legacy.num_frames(), 160);
}

#[test]
fn stream_config_frames_and_samples() {
    let cfg = StreamConfig::new(44_100, 3);
    assert_eq!(cfg.sample_rate_hz(), 44_100);
    assert_eq!(cfg.num_channels(), 3);
    assert_eq!(cfg.num_frames(), 441);
    assert_eq!(cfg.num_samples(), 1_323);
    let empty = StreamConfig::new(8_000, 0);
    assert_eq!(empty.num_frames(), 80);
    assert_eq!(empty.num_samples(), 0);
}
