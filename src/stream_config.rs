//! Stream descriptors: the sample rate and channel count of an audio stream.

use vstd::prelude::*;

verus! {

/// Minimum supported sample rate in Hz.
pub const MIN_SAMPLE_RATE_HZ: u32 = 8_000;

/// Maximum supported sample rate in Hz.
pub const MAX_SAMPLE_RATE_HZ: u32 = 384_000;

/// Well-known sample rates used by the checked API surface.
#[derive(Debug, Clone, Copy, PartialEq, Eq, Structural, Hash)]
pub enum SampleRate {
    Hz8000,
    Hz16000,
    Hz32000,
    Hz48000,
}

impl SampleRate {
    /// The rate in Hz that a variant stands for.
    pub open spec fn hz(self) -> u32 {
        match self {
            SampleRate::Hz8000 => 8_000,
            SampleRate::Hz16000 => 16_000,
            SampleRate::Hz32000 => 32_000,
            SampleRate::Hz48000 => 48_000,
        }
    }

    /// The variant for a rate in Hz, if the rate is one of the supported ones.
    pub open spec fn from_hz(hz: u32) -> Option<SampleRate> {
        if hz == 8_000 {
            Some(SampleRate::Hz8000)
        } else if hz == 16_000 {
            Some(SampleRate::Hz16000)
        } else if hz == 32_000 {
            Some(SampleRate::Hz32000)
        } else if hz == 48_000 {
            Some(SampleRate::Hz48000)
        } else {
            None
        }
    }

    /// Return this sample rate as an integer in Hz.
    pub fn as_hz(self) -> (r: u32)
        ensures
            r == self.hz(),
    {
        match self {
            SampleRate::Hz8000 => 8_000,
            SampleRate::Hz16000 => 16_000,
            SampleRate::Hz32000 => 32_000,
            SampleRate::Hz48000 => 48_000,
        }
    }

    /// The outcome of parsing a rate in Hz: the matching variant, or an
    /// error that carries the rate.
    pub open spec fn parse_hz(hz: u32) -> Result<SampleRate, StreamConfigError> {
        match SampleRate::from_hz(hz) {
            Some(rate) => Ok(rate),
            None => Err(StreamConfigError::UnsupportedSampleRate { sample_rate_hz: hz }),
        }
    }
}

impl TryFrom<u32> for SampleRate {
    type Error = StreamConfigError;

    /// Parses an integer rate in Hz; every rate but the four supported ones
    /// is refused with the rate it was given.
    fn try_from(value: u32) -> (r: Result<SampleRate, StreamConfigError>) {
        match value {
            8_000 => Ok(SampleRate::Hz8000),
            16_000 => Ok(SampleRate::Hz16000),
            32_000 => Ok(SampleRate::Hz32000),
            48_000 => Ok(SampleRate::Hz48000),
            sample_rate_hz => Err(StreamConfigError::UnsupportedSampleRate { sample_rate_hz }),
        }
    }
}

impl vstd::std_specs::convert::TryFromSpecImpl<u32> for SampleRate {
    open spec fn obeys_try_from_spec() -> bool {
        true
    }

    open spec fn try_from_spec(v: u32) -> Result<SampleRate, StreamConfigError> {
        SampleRate::parse_hz(v)
    }
}

/// A supported rate round-trips through its value in Hz, and a value in Hz
/// is accepted exactly when it is the rate of some variant.
pub proof fn lemma_sample_rate_round_trip(rate: SampleRate, hz: u32)
    ensures
        SampleRate::from_hz(rate.hz()) == Some(rate),
        SampleRate::from_hz(hz) matches Some(r) ==> r.hz() == hz,
{
}

/// Error returned when creating a [`CheckedStreamConfig`].
#[derive(Debug, Clone, Copy, PartialEq, Eq, Structural)]
pub enum StreamConfigError {
    /// Sample rate is not one of the supported enum variants.
    UnsupportedSampleRate { sample_rate_hz: u32 },
}

/// Configuration describing an audio stream's properties.
#[derive(Debug, Clone, Copy, PartialEq, Eq, Structural)]
pub struct StreamConfig {
    sample_rate_hz: u32,
    num_channels: u16,
}

impl StreamConfig {
    /// The sampling rate in Hz.
    pub closed spec fn spec_sample_rate_hz(self) -> u32 {
        self.sample_rate_hz
    }

    /// The number of channels.
    pub closed spec fn spec_num_channels(self) -> u16 {
        self.num_channels
    }

    /// Frames in one 10 ms chunk.
    pub open spec fn spec_num_frames(self) -> int {
        self.spec_sample_rate_hz() as int / 100
    }

    /// Create a new stream configuration. The values are not checked; see
    /// [`CheckedStreamConfig`] for a type that only holds supported values.
    pub fn new(sample_rate_hz: u32, num_channels: u16) -> (r: StreamConfig)
        ensures
            r.spec_sample_rate_hz() == sample_rate_hz,
            r.spec_num_channels() == num_channels,
    {
        StreamConfig { sample_rate_hz, num_channels }
    }

    /// The sampling rate in Hz.
    pub fn sample_rate_hz(&self) -> (r: u32)
        ensures
            r == self.spec_sample_rate_hz(),
    {
        self.sample_rate_hz
    }

    /// The number of channels.
    pub fn num_channels(&self) -> (r: u16)
        ensures
            r == self.spec_num_channels(),
    {
        self.num_channels
    }

    /// The number of frames per 10 ms chunk.
    pub fn num_frames(&self) -> (r: usize)
        ensures
            r == self.spec_num_frames(),
    {
        self.sample_rate_hz as usize / 100
    }

    /// Total number of samples (channels times frames) in a 10 ms chunk.
    pub fn num_samples(&self) -> (r: usize)
        requires
            self.spec_num_channels() * self.spec_num_frames() <= usize::MAX,
        ensures
            r == self.spec_num_channels() * self.spec_num_frames(),
    {
        self.num_channels as usize * self.num_frames()
    }
}

/// Validated stream configuration: the sample rate is one of the
/// [`SampleRate`] variants and the channel count is non-zero.
#[derive(Debug, Clone, Copy, PartialEq, Eq, Structural)]
pub struct CheckedStreamConfig {
    sample_rate: SampleRate,
    num_channels: u16,
}

impl CheckedStreamConfig {
    /// The checked sample rate.
    pub closed spec fn spec_sample_rate(self) -> SampleRate {
        self.sample_rate
    }

    /// The number of channels.
    pub closed spec fn spec_num_channels(self) -> u16 {
        self.num_channels
    }

    /// The channel count is never zero.
    #[verifier::type_invariant]
    spec fn channels_nonzero(self) -> bool {
        self.num_channels != 0
    }

    /// Create a validated stream configuration.
    pub fn new(sample_rate: SampleRate, num_channels: u16) -> (r: CheckedStreamConfig)
        requires
            num_channels != 0,
        ensures
            r.spec_sample_rate() == sample_rate,
            r.spec_num_channels() == num_channels,
    {
        CheckedStreamConfig { sample_rate, num_channels }
    }

    /// Create a validated stream configuration from an integer sample rate.
    pub fn try_from_hz(sample_rate_hz: u32, num_channels: u16) -> (r: Result<
        CheckedStreamConfig,
        StreamConfigError,
    >)
        requires
            num_channels != 0,
        ensures
            match SampleRate::from_hz(sample_rate_hz) {
                Some(rate) => r matches Ok(c) && c.spec_sample_rate() == rate
                    && c.spec_num_channels() == num_channels,
                None => r == Err::<CheckedStreamConfig, StreamConfigError>(
                    StreamConfigError::UnsupportedSampleRate { sample_rate_hz },
                ),
            },
    {
        match SampleRate::try_from(sample_rate_hz) {
            Ok(rate) => Ok(CheckedStreamConfig::new(rate, num_channels)),
            Err(e) => Err(e),
        }
    }

    /// The checked sample-rate enum.
    pub fn sample_rate(self) -> (r: SampleRate)
        ensures
            r == self.spec_sample_rate(),
    {
        self.sample_rate
    }

    /// The sampling rate in Hz.
    pub fn sample_rate_hz(self) -> (r: u32)
        ensures
            r == self.spec_sample_rate().hz(),
    {
        self.sample_rate.as_hz()
    }

    /// The non-zero number of channels.
    pub fn num_channels(self) -> (r: u16)
        ensures
            r == self.spec_num_channels(),
            r != 0,
    {
        proof {
            use_type_invariant(self);
        }
        self.num_channels
    }

    /// The unchecked descriptor with the same rate and channel count.
    pub closed spec fn spec_stream_config(self) -> StreamConfig {
        StreamConfig { sample_rate_hz: self.sample_rate.hz(), num_channels: self.num_channels }
    }

    /// Convert to the unchecked [`StreamConfig`].
    pub fn into_stream_config(self) -> (r: StreamConfig)
        ensures
            r == self.spec_stream_config(),
            r.spec_sample_rate_hz() == self.spec_sample_rate().hz(),
            r.spec_num_channels() == self.spec_num_channels(),
    {
        StreamConfig::new(self.sample_rate.as_hz(), self.num_channels)
    }
}

impl From<CheckedStreamConfig> for StreamConfig {
    fn from(value: CheckedStreamConfig) -> (r: StreamConfig) {
        value.into_stream_config()
    }
}

impl vstd::std_specs::convert::FromSpecImpl<CheckedStreamConfig> for StreamConfig {
    open spec fn obeys_from_spec() -> bool {
        true
    }

    open spec fn from_spec(v: CheckedStreamConfig) -> StreamConfig {
        v.spec_stream_config()
    }
}

/// Converting a checked descriptor keeps its rate, in Hz, and its
/// channel count.
pub proof fn lemma_checked_conversion(c: CheckedStreamConfig)
    ensures
        c.spec_stream_config().spec_sample_rate_hz() == c.spec_sample_rate().hz(),
        c.spec_stream_config().spec_num_channels() == c.spec_num_channels(),
{
}

} // verus!
