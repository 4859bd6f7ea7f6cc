//! Pipeline configuration: the component switches and enumerations that
//! hold no floating-point parameters, the choice of the internal
//! processing rate and the checks on the shape of a frame.

use vstd::prelude::*;
use crate::stream_config::StreamConfig;

verus! {

/// Maximum internal processing rate.
#[derive(Debug, Clone, Copy, PartialEq, Eq, Structural)]
pub enum MaxProcessingRate {
    /// 32 kHz internal processing rate.
    Rate32kHz,
    /// 48 kHz internal processing rate.
    Rate48kHz,
}

impl MaxProcessingRate {
    /// The rate in Hz.
    pub open spec fn hz(self) -> u32 {
        match self {
            MaxProcessingRate::Rate32kHz => 32000,
            MaxProcessingRate::Rate48kHz => 48000,
        }
    }

    /// Returns the rate in Hz.
    pub fn as_hz(self) -> (r: u32)
        ensures
            r == self.hz(),
    {
        match self {
            MaxProcessingRate::Rate32kHz => 32000,
            MaxProcessingRate::Rate48kHz => 48000,
        }
    }
}

/// Ways to downmix a multi-channel track to mono.
#[derive(Debug, Clone, Copy, PartialEq, Eq, Structural)]
pub enum DownmixMethod {
    /// Average across channels.
    AverageChannels,
    /// Use the first channel.
    UseFirstChannel,
}

/// Pipeline processing properties.
#[derive(Debug, Clone, Copy, PartialEq, Eq, Structural)]
pub struct Pipeline {
    /// Maximum allowed processing rate used internally.
    pub maximum_internal_processing_rate: MaxProcessingRate,
    /// Allow multi-channel processing of render audio.
    pub multi_channel_render: bool,
    /// Allow multi-channel processing of capture audio when AEC3 is active.
    pub multi_channel_capture: bool,
    /// How to downmix multi-channel capture audio to mono.
    pub capture_downmix_method: DownmixMethod,
}

impl Default for Pipeline {
    fn default() -> (r: Pipeline)
        ensures
            r.maximum_internal_processing_rate == MaxProcessingRate::Rate32kHz,
            !r.multi_channel_render,
            !r.multi_channel_capture,
            r.capture_downmix_method == DownmixMethod::AverageChannels,
    {
        Pipeline {
            maximum_internal_processing_rate: MaxProcessingRate::Rate32kHz,
            multi_channel_render: false,
            multi_channel_capture: false,
            capture_downmix_method: DownmixMethod::AverageChannels,
        }
    }
}

/// Analog microphone gain emulation settings.
#[derive(Debug, Clone, Copy, PartialEq, Eq, Structural)]
pub struct AnalogMicGainEmulation {
    /// Initial analog gain level to use for the emulated analog gain
    /// (default: 255).
    pub initial_level: u8,
}

impl Default for AnalogMicGainEmulation {
    fn default() -> (r: AnalogMicGainEmulation)
        ensures
            r.initial_level == 255,
    {
        AnalogMicGainEmulation { initial_level: 255 }
    }
}

/// High-pass filter settings.
#[derive(Debug, Clone, Copy, PartialEq, Eq, Structural)]
pub struct HighPassFilter {
    /// When true, the filter operates on the full-band signal rather than
    /// only the split band (default: true).
    pub apply_in_full_band: bool,
}

impl Default for HighPassFilter {
    fn default() -> (r: HighPassFilter)
        ensures
            r.apply_in_full_band,
    {
        HighPassFilter { apply_in_full_band: true }
    }
}

/// Echo canceller settings.
#[derive(Debug, Clone, Copy, PartialEq, Eq, Structural)]
pub struct EchoCanceller {
    /// Enforce the highpass filter to be on (default: true).
    pub enforce_high_pass_filtering: bool,
}

impl Default for EchoCanceller {
    fn default() -> (r: EchoCanceller)
        ensures
            r.enforce_high_pass_filtering,
    {
        EchoCanceller { enforce_high_pass_filtering: true }
    }
}

/// Noise suppression aggressiveness level.
#[derive(Debug, Clone, Copy, PartialEq, Eq, Structural)]
pub enum NoiseSuppressionLevel {
    /// Low suppression (about 6 dB).
    Low,
    /// Moderate suppression (about 12 dB, default).
    Moderate,
    /// High suppression (about 18 dB).
    High,
    /// Very high suppression (about 21 dB).
    VeryHigh,
}

/// Background noise suppression settings.
#[derive(Debug, Clone, Copy, PartialEq, Eq, Structural)]
pub struct NoiseSuppression {
    /// Aggressiveness level for noise suppression (default: `Moderate`).
    pub level: NoiseSuppressionLevel,
    /// When true and linear AEC output is available, noise suppression
    /// analyzes the linear AEC output instead of the regular signal.
    pub analyze_linear_aec_output_when_available: bool,
}

impl Default for NoiseSuppression {
    fn default() -> (r: NoiseSuppression)
        ensures
            r.level == NoiseSuppressionLevel::Moderate,
            !r.analyze_linear_aec_output_when_available,
    {
        NoiseSuppression {
            level: NoiseSuppressionLevel::Moderate,
            analyze_linear_aec_output_when_available: false,
        }
    }
}

/// Play-out audio device properties.
#[derive(Debug, Clone, Copy, PartialEq, Eq, Structural)]
pub struct PlayoutAudioDeviceInfo {
    /// Identifies the audio device.
    pub id: i32,
    /// Maximum volume of the audio device.
    pub max_volume: i32,
}

/// The internal processing rate: the higher of the two stream rates, capped
/// at the configured maximum, then rounded up to 16, 32 or 48 kHz.
pub open spec fn spec_internal_processing_rate(
    max_rate: MaxProcessingRate,
    capture_rate_hz: u32,
    render_rate_hz: u32,
) -> u32 {
    let highest = if capture_rate_hz >= render_rate_hz {
        capture_rate_hz
    } else {
        render_rate_hz
    };
    let capped = if highest <= max_rate.hz() {
        highest
    } else {
        max_rate.hz()
    };
    if capped <= 16000 {
        16000
    } else if capped <= 32000 {
        32000
    } else {
        48000
    }
}

/// Chooses the rate at which the pipeline runs internally.
pub fn internal_processing_rate(
    max_rate: MaxProcessingRate,
    capture_rate_hz: u32,
    render_rate_hz: u32,
) -> (r: u32)
    ensures
        r == spec_internal_processing_rate(max_rate, capture_rate_hz, render_rate_hz),
        r == 16000 || r == 32000 || r == 48000,
        r <= max_rate.hz(),
{
    let highest = if capture_rate_hz >= render_rate_hz {
        capture_rate_hz
    } else {
        render_rate_hz
    };
    let max_hz = max_rate.as_hz();
    let capped = if highest <= max_hz {
        highest
    } else {
        max_hz
    };
    if capped <= 16000 {
        16000
    } else if capped <= 32000 {
        32000
    } else {
        48000
    }
}

/// The shape errors that processing a frame can report.
#[derive(Debug, Clone, Copy, PartialEq, Eq, Structural)]
pub enum Error {
    /// A channel does not hold exactly one 10 ms frame.
    InvalidFrameSize,
    /// The number of channels differs from the stream configuration.
    MismatchedChannels,
}

/// The outcome of the shape check on a frame whose channels have the given
/// lengths: the channel count is checked first, then each length.
pub open spec fn spec_frame_shape(channel_lens: Seq<usize>, config: StreamConfig) -> Result<
    (),
    Error,
> {
    if channel_lens.len() != config.spec_num_channels() as int {
        Err(Error::MismatchedChannels)
    } else if exists|i: int|
        0 <= i < channel_lens.len() && channel_lens[i] != config.spec_num_frames() {
        Err(Error::InvalidFrameSize)
    } else {
        Ok(())
    }
}

/// Checks that a frame has one slice per configured channel and that each
/// slice holds exactly the stream's 10 ms frame.
pub fn check_frame_shape(channel_lens: &Vec<usize>, config: &StreamConfig) -> (r: Result<
    (),
    Error,
>)
    ensures
        r == spec_frame_shape(channel_lens@, *config),
{
    if channel_lens.len() != config.num_channels() as usize {
        return Err(Error::MismatchedChannels);
    }
    let frames = config.num_frames();
    let mut i: usize = 0;
    while i < channel_lens.len()
        invariant
            i <= channel_lens.len(),
            channel_lens@.len() == config.spec_num_channels() as int,
            frames == config.spec_num_frames(),
            forall|j: int| 0 <= j < i ==> channel_lens@[j] == frames,
        decreases channel_lens.len() - i,
    {
        if channel_lens[i] != frames {
            assert(exists|j: int|
                0 <= j < channel_lens@.len() && channel_lens@[j] != config.spec_num_frames()) by {
                assert(channel_lens@[i as int] != config.spec_num_frames());
            }
            return Err(Error::InvalidFrameSize);
        }
        i += 1;
    }
    Ok(())
}

/// The noise suppression level picked by a selector byte, cycling through
/// the four levels.
pub open spec fn spec_ns_level(idx: u8) -> NoiseSuppressionLevel {
    let m = idx % 4;
    if m == 0 {
        NoiseSuppressionLevel::Low
    } else if m == 1 {
        NoiseSuppressionLevel::Moderate
    } else if m == 2 {
        NoiseSuppressionLevel::High
    } else {
        NoiseSuppressionLevel::VeryHigh
    }
}

/// Maps a selector byte onto a noise suppression level.
pub fn ns_level(idx: u8) -> (r: NoiseSuppressionLevel)
    ensures
        r == spec_ns_level(idx),
{
    match idx % 4 {
        0 => NoiseSuppressionLevel::Low,
        1 => NoiseSuppressionLevel::Moderate,
        2 => NoiseSuppressionLevel::High,
        _ => NoiseSuppressionLevel::VeryHigh,
    }
}

/// The sample rate picked by a selector byte, cycling through the four
/// supported rates.
pub open spec fn spec_sample_rate(idx: u8) -> u32 {
    let m = idx % 4;
    if m == 0 {
        8000
    } else if m == 1 {
        16000
    } else if m == 2 {
        32000
    } else {
        48000
    }
}

/// Maps a selector byte onto a supported sample rate in Hz.
pub fn sample_rate(idx: u8) -> (r: u32)
    ensures
        r == spec_sample_rate(idx),
{
    match idx % 4 {
        0 => 8000,
        1 => 16000,
        2 => 32000,
        _ => 48000,
    }
}

} // verus!
