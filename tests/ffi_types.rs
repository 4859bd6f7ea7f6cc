use sonora::config::{DownmixMethod, MaxProcessingRate, NoiseSuppressionLevel};
use sonora::ffi_types::{
    analog_level_from_flat, max_processing_rate_from_flat, max_processing_rate_to_flat,
    WapDownmixMethod, WapNoiseSuppressionLevel, WapStreamConfig,
};

#[test]
fn noise_suppression_level_roundtrip() {
    for (c_level, rust_level) in [
        (WapNoiseSuppressionLevel::Low, NoiseSuppressionLevel::Low),
        (
            WapNoiseSuppressionLevel::Moderate,
            NoiseSuppressionLevel::Moderate,
        ),
        (WapNoiseSuppressionLevel::High, NoiseSuppressionLevel::High),
        (
            WapNoiseSuppressionLevel::VeryHigh,
            NoiseSuppressionLevel::VeryHigh,
        ),
    ] {
        assert_eq!(c_level.to_rust(), rust_level);
        assert_eq!(WapNoiseSuppressionLevel::from_rust(rust_level), c_level);
    }
}

#[test]
fn downmix_method_roundtrip() {
    for (c_method, rust_method) in [
        (
            WapDownmixMethod::AverageChannels,
            DownmixMethod::AverageChannels,
        ),
        (
            WapDownmixMethod::UseFirstChannel,
            DownmixMethod::UseFirstChannel,
        ),
    ] {
        assert_eq!(c_method.to_rust(), rust_method);
        assert_eq!(WapDownmixMethod::from_rust(rust_method), c_method);
    }
}

#[test]
fn flat_stream_config_converts_and_saturates() {
    let cfg = WapStreamConfig { sample_rate_hz: 48_000, num_channels: 2 }.to_rust();
    assert_eq!(cfg.sample_rate_hz(), 48_000);
    assert_eq!(cfg.num_channels(), 2);
    let negative = WapStreamConfig { sample_rate_hz: -1, num_channels: -5 }.to_rust();
    assert_eq!(negative.sample_rate_hz(), 0);
    assert_eq!(negative.num_channels(), 0);
    let wide = WapStreamConfig { sample_rate_hz: 16_000, num_channels: 70_000 }.to_rust();
    assert_eq!(wide.num_channels(), u16::MAX);
}

#[test]
fn flat_processing_rate_round_trips() {
    assert_eq!(max_processing_rate_to_flat(MaxProcessingRate::Rate32kHz), 32000);
    assert_eq!(max_processing_rate_to_flat(MaxProcessingRate::Rate48kHz), 48000);
    for rate in [MaxProcessingRate::Rate32kHz, MaxProcessingRate::Rate48kHz] {
        assert_eq!(max_processing_rate_from_flat(max_processing_rate_to_flat(rate)), rate);
    }
    assert_eq!(max_processing_rate_from_flat(44100), MaxProcessingRate::Rate48kHz);
    assert_eq!(max_processing_rate_from_flat(-1), MaxProcessingRate::Rate48kHz);
}

#[test]
fn flat_analog_level_saturates() {
    assert_eq!(analog_level_from_flat(128), 128);
    assert_eq!(analog_level_from_flat(-7), 0);
    assert_eq!(analog_level_from_flat(1000), 255);
    assert_eq!(analog_level_from_flat(255), 255);
}
