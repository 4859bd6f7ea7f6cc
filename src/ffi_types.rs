//! Flat, C-compatible mirrors of the configuration enums and of the stream
//! descriptor, and the conversions between them and the library's types.

use vstd::prelude::*;
use crate::config::{DownmixMethod, MaxProcessingRate, NoiseSuppressionLevel};
use crate::stream_config::StreamConfig;

verus! {

/// Noise suppression level as passed across the C interface.
#[derive(Debug, Clone, Copy, PartialEq, Eq, Structural)]
pub enum WapNoiseSuppressionLevel {
    Low,
    Moderate,
    High,
    VeryHigh,
}

/// The library level that each flat level stands for.
pub open spec fn spec_level_to_rust(level: WapNoiseSuppressionLevel) -> NoiseSuppressionLevel {
    match level {
        WapNoiseSuppressionLevel::Low => NoiseSuppressionLevel::Low,
        WapNoiseSuppressionLevel::Moderate => NoiseSuppressionLevel::Moderate,
        WapNoiseSuppressionLevel::High => NoiseSuppressionLevel::High,
        WapNoiseSuppressionLevel::VeryHigh => NoiseSuppressionLevel::VeryHigh,
    }
}

impl WapNoiseSuppressionLevel {
    /// Converts to the library's level.
    pub fn to_rust(self) -> (r: NoiseSuppressionLevel)
        ensures
            r == spec_level_to_rust(self),
    {
        match self {
            WapNoiseSuppressionLevel::Low => NoiseSuppressionLevel::Low,
            WapNoiseSuppressionLevel::Moderate => NoiseSuppressionLevel::Moderate,
            WapNoiseSuppressionLevel::High => NoiseSuppressionLevel::High,
            WapNoiseSuppressionLevel::VeryHigh => NoiseSuppressionLevel::VeryHigh,
        }
    }

    /// Converts from the library's level.
    pub fn from_rust(level: NoiseSuppressionLevel) -> (r: WapNoiseSuppressionLevel)
        ensures
            spec_level_to_rust(r) == level,
    {
        match level {
            NoiseSuppressionLevel::Low => WapNoiseSuppressionLevel::Low,
            NoiseSuppressionLevel::Moderate => WapNoiseSuppressionLevel::Moderate,
            NoiseSuppressionLevel::High => WapNoiseSuppressionLevel::High,
            NoiseSuppressionLevel::VeryHigh => WapNoiseSuppressionLevel::VeryHigh,
        }
    }
}

/// Downmix method as passed across the C interface.
#[derive(Debug, Clone, Copy, PartialEq, Eq, Structural)]
pub enum WapDownmixMethod {
    AverageChannels,
    UseFirstChannel,
}

/// The library method that each flat method stands for.
pub open spec fn spec_downmix_to_rust(method: WapDownmixMethod) -> DownmixMethod {
    match method {
        WapDownmixMethod::AverageChannels => DownmixMethod::AverageChannels,
        WapDownmixMethod::UseFirstChannel => DownmixMethod::UseFirstChannel,
    }
}

impl WapDownmixMethod {
    /// Converts to the library's downmix method.
    pub fn to_rust(self) -> (r: DownmixMethod)
        ensures
            r == spec_downmix_to_rust(self),
    {
        match self {
            WapDownmixMethod::AverageChannels => DownmixMethod::AverageChannels,
            WapDownmixMethod::UseFirstChannel => DownmixMethod::UseFirstChannel,
        }
    }

    /// Converts from the library's downmix method.
    pub fn from_rust(method: DownmixMethod) -> (r: WapDownmixMethod)
        ensures
            spec_downmix_to_rust(r) == method,
    {
        match method {
            DownmixMethod::AverageChannels => WapDownmixMethod::AverageChannels,
            DownmixMethod::UseFirstChannel => WapDownmixMethod::UseFirstChannel,
        }
    }
}

/// Both enum conversions are bijections: converting there and back gives
/// the value that was started from, in either direction.
pub proof fn lemma_flat_enum_round_trip(
    level: WapNoiseSuppressionLevel,
    method: WapDownmixMethod,
    l: WapNoiseSuppressionLevel,
    m: WapDownmixMethod,
)
    ensures
        spec_level_to_rust(l) == spec_level_to_rust(level) ==> l == level,
        spec_downmix_to_rust(m) == spec_downmix_to_rust(method) ==> m == method,
{
}

/// A signed value saturated into `[0, hi]`.
pub open spec fn saturate(v: int, hi: int) -> int {
    if v < 0 {
        0
    } else if v > hi {
        hi
    } else {
        v
    }
}

/// The processing-rate cap that a flat rate selects: 32 kHz when it says
/// 32000, else 48 kHz.
pub open spec fn spec_rate_from_flat(hz: i32) -> MaxProcessingRate {
    if hz == 32000 {
        MaxProcessingRate::Rate32kHz
    } else {
        MaxProcessingRate::Rate48kHz
    }
}

/// Reads the flat processing-rate field.
pub fn max_processing_rate_from_flat(hz: i32) -> (r: MaxProcessingRate)
    ensures
        r == spec_rate_from_flat(hz),
{
    if hz == 32000 {
        MaxProcessingRate::Rate32kHz
    } else {
        MaxProcessingRate::Rate48kHz
    }
}

/// Writes the flat processing-rate field: the rate in Hz.
pub fn max_processing_rate_to_flat(rate: MaxProcessingRate) -> (r: i32)
    ensures
        r == rate.hz(),
{
    rate.as_hz() as i32
}

/// Reads the flat analog level, saturated into `0..=255`.
pub fn analog_level_from_flat(level: i32) -> (r: u8)
    ensures
        r == saturate(level as int, 255),
{
    if level < 0 {
        0
    } else if level > 255 {
        255
    } else {
        level as u8
    }
}

/// The integer fields of the flat configuration survive a round trip: a
/// processing rate and an analog level written out and read back are the
/// values that were written.
pub proof fn lemma_flat_fields_round_trip(rate: MaxProcessingRate, level: u8)
    ensures
        spec_rate_from_flat(rate.hz() as i32) == rate,
        saturate(level as int, 255) == level as int,
{
}

/// Stream descriptor as passed across the C interface, with signed fields.
#[derive(Debug, Clone, Copy, PartialEq, Eq, Structural)]
pub struct WapStreamConfig {
    pub sample_rate_hz: i32,
    pub num_channels: i32,
}

impl WapStreamConfig {
    /// Converts to the library's descriptor. A negative rate or channel
    /// count becomes zero, and a channel count beyond `u16::MAX` saturates.
    pub fn to_rust(self) -> (r: StreamConfig)
        ensures
            r.spec_sample_rate_hz() == saturate(self.sample_rate_hz as int, i32::MAX as int),
            r.spec_num_channels() == saturate(self.num_channels as int, u16::MAX as int),
    {
        let rate: u32 = if self.sample_rate_hz < 0 {
            0
        } else {
            self.sample_rate_hz as u32
        };
        let channels: u16 = if self.num_channels < 0 {
            0
        } else if self.num_channels > u16::MAX as i32 {
            u16::MAX
        } else {
            self.num_channels as u16
        };
        StreamConfig::new(rate, channels)
    }
}

} // verus!
