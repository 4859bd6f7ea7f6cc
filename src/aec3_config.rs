//! Integer parameters of the echo canceller configuration and the clamps
//! that keep them inside their declared ranges.
//!
//! Each validator returns `true` when the value was already valid and
//! `false` when it had to change something, and validating a second time
//! never changes anything.

use vstd::prelude::*;

verus! {

/// `v` clamped into `[lo, hi]` (for `lo <= hi`).
pub open spec fn clamp(v: int, lo: int, hi: int) -> int {
    if v < lo {
        lo
    } else if v > hi {
        hi
    } else {
        v
    }
}

/// Clamping is idempotent and lands inside the range.
pub proof fn lemma_clamp_idempotent(v: int, lo: int, hi: int)
    requires
        lo <= hi,
    ensures
        lo <= clamp(v, lo, hi) <= hi,
        clamp(clamp(v, lo, hi), lo, hi) == clamp(v, lo, hi),
        (clamp(v, lo, hi) == v) <==> (lo <= v <= hi),
{
}

/// Clamps `value` into `[min, max]`; returns whether it was already there.
pub fn limit_usize(value: &mut usize, min: usize, max: usize) -> (unchanged: bool)
    requires
        min <= max,
    ensures
        *final(value) == clamp(*old(value) as int, min as int, max as int),
        unchanged == (*final(value) == *old(value)),
{
    let clamped = if *value < min {
        min
    } else if *value > max {
        max
    } else {
        *value
    };
    let unchanged = *value == clamped;
    *value = clamped;
    unchanged
}

/// Clamps `value` into `[min, max]`; returns whether it was already there.
pub fn limit_i32(value: &mut i32, min: i32, max: i32) -> (unchanged: bool)
    requires
        min <= max,
    ensures
        *final(value) == clamp(*old(value) as int, min as int, max as int),
        unchanged == (*final(value) == *old(value)),
{
    let clamped = if *value < min {
        min
    } else if *value > max {
        max
    } else {
        *value
    };
    let unchanged = *value == clamped;
    *value = clamped;
    unchanged
}

/// Raises `value` to at least `min`; returns whether it was already there.
pub fn floor_limit_usize(value: &mut usize, min: usize) -> (unchanged: bool)
    ensures
        *final(value) == if *old(value) < min {
            min
        } else {
            *old(value)
        },
        unchanged == (*old(value) >= min),
{
    if *value < min {
        *value = min;
        false
    } else {
        true
    }
}

/// The delay estimator only supports down-sampling by 4 or by 8.
pub open spec fn valid_down_sampling_factor(factor: usize) -> bool {
    factor == 4 || factor == 8
}

/// A supported factor is kept; any other becomes 4.
pub open spec fn validated_down_sampling_factor(factor: usize) -> usize {
    if valid_down_sampling_factor(factor) {
        factor
    } else {
        4
    }
}

/// Resets an unsupported down-sampling factor to 4.
pub fn validate_down_sampling_factor(factor: &mut usize) -> (unchanged: bool)
    ensures
        *final(factor) == validated_down_sampling_factor(*old(factor)),
        unchanged == valid_down_sampling_factor(*old(factor)),
{
    if *factor != 4 && *factor != 8 {
        *factor = 4;
        false
    } else {
        true
    }
}

/// The lengths that a filter and its initial configuration may have:
/// both at least one block, and the initial one no longer than the other.
pub open spec fn valid_filter_lengths(length: usize, initial_length: usize) -> bool {
    1 <= initial_length <= length
}

/// Both lengths raised to at least one block, then the initial length
/// shortened to the filter's length if it is longer.
pub open spec fn validated_filter_lengths(length: usize, initial_length: usize) -> (usize, usize) {
    let l = if length < 1 {
        1
    } else {
        length
    };
    let i = if initial_length < 1 {
        1
    } else if initial_length > l {
        l
    } else {
        initial_length
    };
    (l, i)
}

/// Raises both lengths to at least one block, then shortens the initial
/// length to the filter's length if it is longer.
pub fn validate_filter_lengths(length: &mut usize, initial_length: &mut usize) -> (unchanged: bool)
    ensures
        (*final(length), *final(initial_length)) == validated_filter_lengths(
            *old(length),
            *old(initial_length),
        ),
        unchanged == valid_filter_lengths(*old(length), *old(initial_length)),
{
    let mut ok = floor_limit_usize(length, 1);
    ok = floor_limit_usize(initial_length, 1) && ok;
    if *length < *initial_length {
        *initial_length = *length;
        ok = false;
    }
    ok
}

/// Render buffer excess detection settings.
#[derive(Debug, Clone, Copy, PartialEq, Eq, Structural)]
pub struct Buffering {
    /// Interval in blocks between excess render detection checks (default: 250).
    pub excess_render_detection_interval_blocks: usize,
    /// Maximum allowed excess render blocks before triggering correction (default: 8).
    pub max_allowed_excess_render_blocks: usize,
}

impl Default for Buffering {
    fn default() -> (r: Buffering)
        ensures
            r.excess_render_detection_interval_blocks == 250,
            r.max_allowed_excess_render_blocks == 8,
    {
        Buffering { excess_render_detection_interval_blocks: 250, max_allowed_excess_render_blocks: 8 }
    }
}

/// Thresholds for delay estimator convergence detection.
#[derive(Debug, Clone, Copy, PartialEq, Eq, Structural)]
pub struct DelaySelectionThresholds {
    /// Threshold used during the initial phase before convergence (default: 5).
    pub initial: i32,
    /// Threshold used after the delay estimator has converged (default: 20).
    pub converged: i32,
}

impl DelaySelectionThresholds {
    /// Both thresholds lie in `[1, 250]`.
    pub open spec fn valid(self) -> bool {
        1 <= self.initial <= 250 && 1 <= self.converged <= 250
    }

    /// Both thresholds clamped into `[1, 250]`.
    pub open spec fn validated(self) -> DelaySelectionThresholds {
        DelaySelectionThresholds {
            initial: clamp(self.initial as int, 1, 250) as i32,
            converged: clamp(self.converged as int, 1, 250) as i32,
        }
    }

    /// Clamps both thresholds into `[1, 250]`.
    pub fn validate(&mut self) -> (unchanged: bool)
        ensures
            *final(self) == old(self).validated(),
            unchanged == old(self).valid(),
    {
        let a = limit_i32(&mut self.initial, 1, 250);
        let b = limit_i32(&mut self.converged, 1, 250);
        a && b
    }
}

/// Which transparent mode classifier the echo canceller runs.
#[derive(Debug, Clone, Copy, PartialEq, Eq, Structural)]
pub enum TransparentModeType {
    /// Counter-based heuristic (the default).
    Legacy,
    /// Two-state Hidden Markov Model classifier.
    Hmm,
}

impl Default for TransparentModeType {
    fn default() -> (r: TransparentModeType)
        ensures
            r == TransparentModeType::Legacy,
    {
        TransparentModeType::Legacy
    }
}

/// Top-level echo removal control settings.
#[derive(Debug, Clone, Copy, PartialEq, Eq, Structural)]
pub struct EchoRemovalControl {
    /// Whether the render and capture clocks are drifting relative to each other.
    pub has_clock_drift: bool,
    /// Whether the echo path is linear and stable (e.g. loopback scenarios).
    pub linear_and_stable_echo_path: bool,
    /// Which transparent mode algorithm to use.
    pub transparent_mode: TransparentModeType,
}

impl Default for EchoRemovalControl {
    fn default() -> (r: EchoRemovalControl)
        ensures
            !r.has_clock_drift,
            !r.linear_and_stable_echo_path,
            r.transparent_mode == TransparentModeType::Legacy,
    {
        EchoRemovalControl {
            has_clock_drift: false,
            linear_and_stable_echo_path: false,
            transparent_mode: TransparentModeType::Legacy,
        }
    }
}

/// A frequency subband range specified by low and high bin indices.
#[derive(Debug, Clone, Copy, PartialEq, Eq, Structural)]
pub struct SubbandRegion {
    /// Lower frequency bin index (inclusive).
    pub low: usize,
    /// Upper frequency bin index (inclusive).
    pub high: usize,
}

impl SubbandRegion {
    /// Both bins lie in the 65-bin spectrum and `low <= high`.
    pub open spec fn valid(self) -> bool {
        self.low <= self.high <= 65
    }

    /// `low` clamped into `[0, 65]`, then `high` into `[low, 65]`.
    pub open spec fn validated(self) -> SubbandRegion {
        let low = clamp(self.low as int, 0, 65);
        SubbandRegion { low: low as usize, high: clamp(self.high as int, low, 65) as usize }
    }

    /// Clamps `low` into `[0, 65]`, then `high` into `[low, 65]`.
    pub fn validate(&mut self) -> (unchanged: bool)
        ensures
            *final(self) == old(self).validated(),
            unchanged == old(self).valid(),
    {
        let a = limit_usize(&mut self.low, 0, 65);
        let b = limit_usize(&mut self.high, self.low, 65);
        a && b
    }
}

/// HF gain limiting parameters.
#[derive(Debug, Clone, Copy, PartialEq, Eq, Structural)]
pub struct HighFrequencySuppression {
    /// Starting band index for HF gain limiting (default: 16).
    pub limiting_gain_band: i32,
    /// Number of bands over which HF gain limiting is applied (default: 1).
    pub bands_in_limiting_gain: i32,
}

impl Default for HighFrequencySuppression {
    fn default() -> (r: HighFrequencySuppression)
        ensures
            r.limiting_gain_band == 16,
            r.bands_in_limiting_gain == 1,
    {
        HighFrequencySuppression { limiting_gain_band: 16, bands_in_limiting_gain: 1 }
    }
}

impl HighFrequencySuppression {
    /// The limiting region starts in `[1, 64]` and ends by band 64.
    pub open spec fn valid(self) -> bool {
        1 <= self.limiting_gain_band <= 64 && 0 <= self.bands_in_limiting_gain <= 64
            - self.limiting_gain_band
    }

    /// The start band clamped into `[1, 64]`, then the band count into
    /// `[0, 64 - start]`.
    pub open spec fn validated(self) -> HighFrequencySuppression {
        let start = clamp(self.limiting_gain_band as int, 1, 64);
        HighFrequencySuppression {
            limiting_gain_band: start as i32,
            bands_in_limiting_gain: clamp(self.bands_in_limiting_gain as int, 0, 64 - start) as i32,
        }
    }

    /// Clamps the start band into `[1, 64]`, then the band count into
    /// `[0, 64 - start]`.
    pub fn validate(&mut self) -> (unchanged: bool)
        ensures
            *final(self) == old(self).validated(),
            unchanged == old(self).valid(),
    {
        let a = limit_i32(&mut self.limiting_gain_band, 1, 64);
        let b = limit_i32(&mut self.bands_in_limiting_gain, 0, 64 - self.limiting_gain_band);
        a && b
    }
}

/// Band indices of the suppressor: the LF smoothing bands, the last LF band
/// and the first HF band, which must lie above it.
#[derive(Debug, Clone, Copy, PartialEq, Eq, Structural)]
pub struct SuppressorBands {
    pub last_permanent_lf_smoothing_band: i32,
    pub last_lf_smoothing_band: i32,
    pub last_lf_band: i32,
    pub first_hf_band: i32,
}

impl SuppressorBands {
    /// Every index lies in its range and `first_hf_band > last_lf_band`.
    pub open spec fn valid(self) -> bool {
        &&& 0 <= self.last_permanent_lf_smoothing_band <= 64
        &&& 0 <= self.last_lf_smoothing_band <= 64
        &&& 0 <= self.last_lf_band <= 63
        &&& self.last_lf_band < self.first_hf_band <= 64
    }

    /// The smoothing bands clamped into `[0, 64]`, the last LF band into
    /// `[0, 63]` and then the first HF band into `[last_lf_band + 1, 64]`.
    pub open spec fn validated(self) -> SuppressorBands {
        let last_lf = clamp(self.last_lf_band as int, 0, 63);
        SuppressorBands {
            last_permanent_lf_smoothing_band: clamp(
                self.last_permanent_lf_smoothing_band as int,
                0,
                64,
            ) as i32,
            last_lf_smoothing_band: clamp(self.last_lf_smoothing_band as int, 0, 64) as i32,
            last_lf_band: last_lf as i32,
            first_hf_band: clamp(self.first_hf_band as int, last_lf + 1, 64) as i32,
        }
    }

    /// Clamps the smoothing bands into `[0, 64]`, the last LF band into
    /// `[0, 63]` and then the first HF band into `[last_lf_band + 1, 64]`.
    pub fn validate(&mut self) -> (unchanged: bool)
        ensures
            *final(self) == old(self).validated(),
            unchanged == old(self).valid(),
    {
        let a = limit_i32(&mut self.last_permanent_lf_smoothing_band, 0, 64);
        let b = limit_i32(&mut self.last_lf_smoothing_band, 0, 64);
        let c = limit_i32(&mut self.last_lf_band, 0, 63);
        let d = limit_i32(&mut self.first_hf_band, self.last_lf_band + 1, 64);
        a && b && c && d
    }
}

/// Validation lands on valid values, keeps valid values as they are, and
/// therefore changes nothing when applied a second time.
pub proof fn lemma_validation_idempotent(
    factor: usize,
    length: usize,
    initial_length: usize,
    thresholds: DelaySelectionThresholds,
    region: SubbandRegion,
    hf: HighFrequencySuppression,
    bands: SuppressorBands,
)
    ensures
        valid_down_sampling_factor(validated_down_sampling_factor(factor)),
        validated_down_sampling_factor(validated_down_sampling_factor(factor))
            == validated_down_sampling_factor(factor),
        ({
            let (l, i) = validated_filter_lengths(length, initial_length);
            valid_filter_lengths(l, i) && validated_filter_lengths(l, i) == (l, i)
        }),
        thresholds.validated().valid(),
        thresholds.validated().validated() == thresholds.validated(),
        region.validated().valid(),
        region.validated().validated() == region.validated(),
        hf.validated().valid(),
        hf.validated().validated() == hf.validated(),
        bands.validated().valid(),
        bands.validated().validated() == bands.validated(),
{
}

} // verus!
