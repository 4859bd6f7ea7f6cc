use sonora::aec3_config::{
    floor_limit_usize, limit_i32, limit_usize, validate_down_sampling_factor,
    validate_filter_lengths, Buffering, DelaySelectionThresholds, EchoRemovalControl,
    HighFrequencySuppression, SubbandRegion, SuppressorBands, TransparentModeType,
};

#[test]
fn limit_usize_clamps_and_reports() {
    let mut v: usize = 7000;
    assert!(!limit_usize(&mut v, 0, 5000));
    assert_eq!(v, 5000);
    assert!(limit_usize(&mut v, 0, 5000));
    assert_eq!(v, 5000);
    let mut low: usize = 0;
    assert!(!limit_usize(&mut low, 1, 1024));
    assert_eq!(low, 1);
}

#[test]
fn limit_i32_clamps_and_reports() {
    let mut v: i32 = -3;
    assert!(!limit_i32(&mut v, 1, 250));
    assert_eq!(v, 1);
    let mut w: i32 = 300;
    assert!(!limit_i32(&mut w, 1, 250));
    assert_eq!(w, 250);
    let mut ok: i32 = 20;
    assert!(limit_i32(&mut ok, 1, 250));
    assert_eq!(ok, 20);
}

#[test]
fn floor_limit_raises_only_small_values() {
    let mut v: usize = 0;
    assert!(!floor_limit_usize(&mut v, 1));
    assert_eq!(v, 1);
    let mut w: usize = 13;
    assert!(floor_limit_usize(&mut w, 1));
    assert_eq!(w, 13);
}

#[test]
fn unsupported_down_sampling_factor_resets_to_four() {
    let mut factor: usize = 3;
    assert!(!validate_down_sampling_factor(&mut factor));
    assert_eq!(factor, 4);
    assert!(validate_down_sampling_factor(&mut factor));
    let mut eight: usize = 8;
    assert!(validate_down_sampling_factor(&mut eight));
    assert_eq!(eight, 8);
}

#[test]
fn initial_filter_length_is_shortened_to_filter_length() {
    let mut length: usize = 5;
    let mut initial: usize = 12;
    assert!(!validate_filter_lengths(&mut length, &mut initial));
    assert_eq!((length, initial), (5, 5));
    assert!(validate_filter_lengths(&mut length, &mut initial));

    let mut zero: usize = 0;
    let mut zero_initial: usize = 0;
    assert!(!validate_filter_lengths(&mut zero, &mut zero_initial));
    assert_eq!((zero, zero_initial), (1, 1));

    let mut ok: usize = 13;
    let mut ok_initial: usize = 12;
    assert!(validate_filter_lengths(&mut ok, &mut ok_initial));
    assert_eq!((ok, ok_initial), (13, 12));
}

#[test]
fn delay_selection_thresholds_validation_is_idempotent() {
    let mut t = DelaySelectionThresholds { initial: 0, converged: 1000 };
    assert!(!t.validate());
    assert_eq!(t, DelaySelectionThresholds { initial: 1, converged: 250 });
    assert!(t.validate());
    assert_eq!(t, DelaySelectionThresholds { initial: 1, converged: 250 });
}

#[test]
fn subband_region_high_follows_low() {
    let mut r = SubbandRegion { low: 80, high: 10 };
    assert!(!r.validate());
    assert_eq!(r, SubbandRegion { low: 65, high: 65 });
    let mut ok = SubbandRegion { low: 1, high: 1 };
    assert!(ok.validate());
    assert_eq!(ok, SubbandRegion { low: 1, high: 1 });
    let mut inverted = SubbandRegion { low: 30, high: 20 };
    assert!(!inverted.validate());
    assert_eq!(inverted, SubbandRegion { low: 30, high: 30 });
}

#[test]
fn high_frequency_suppression_band_count_fits() {
    let mut hf = HighFrequencySuppression::default();
    assert_eq!(hf, HighFrequencySuppression { limiting_gain_band: 16, bands_in_limiting_gain: 1 });
    assert!(hf.validate());
    let mut wide = HighFrequencySuppression { limiting_gain_band: 60, bands_in_limiting_gain: 10 };
    assert!(!wide.validate());
    assert_eq!(wide, HighFrequencySuppression { limiting_gain_band: 60, bands_in_limiting_gain: 4 });
    assert!(wide.validate());
}

#[test]
fn suppressor_bands_keep_hf_above_lf() {
    let mut bands = SuppressorBands {
        last_permanent_lf_smoothing_band: 0,
        last_lf_smoothing_band: 0,
        last_lf_band: 5,
        first_hf_band: 8,
    };
    assert!(bands.validate());
    let mut bad = SuppressorBands {
        last_permanent_lf_smoothing_band: -1,
        last_lf_smoothing_band: 70,
        last_lf_band: 70,
        first_hf_band: 10,
    };
    assert!(!bad.validate());
    assert_eq!(
        bad,
        SuppressorBands {
            last_permanent_lf_smoothing_band: 0,
            last_lf_smoothing_band: 64,
            last_lf_band: 63,
            first_hf_band: 64,
        }
    );
    assert!(bad.validate());
}

#[test]
fn aec3_integer_defaults() {
    let b = Buffering::default();
    assert_eq!(b.excess_render_detection_interval_blocks, 250);
    assert_eq!(b.max_allowed_excess_render_blocks, 8);
    let c = EchoRemovalControl::default();
    assert!(!c.has_clock_drift);
    assert!(!c.linear_and_stable_echo_path);
    assert_eq!(c.transparent_mode, TransparentModeType::Legacy);
    assert_eq!(TransparentModeType::default(), TransparentModeType::Legacy);
}
