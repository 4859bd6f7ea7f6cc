use sonora::aec3_config::{EchoRemovalControl, TransparentModeType};
use sonora::transparent_mode::{transparent_mode_selection, LegacyTransparentMode, TransparentModeState};

fn state(converged: bool, active_render: bool) -> TransparentModeState {
    TransparentModeState {
        filter_delay_blocks: 0,
        any_filter_consistent: false,
        any_filter_converged: converged,
        any_coarse_filter_converged: converged,
        all_filters_diverged: false,
        active_render,
        saturated_capture: false,
    }
}

#[test]
fn legacy_initial_state_not_active() {
    let control = EchoRemovalControl::default();
    let legacy = LegacyTransparentMode::new(&control);
    assert!(!legacy.active());
}

#[test]
fn selection_disabled_when_bounded_erl() {
    let control = EchoRemovalControl::default();
    assert_eq!(transparent_mode_selection(true, &control), None);
}

#[test]
fn selection_follows_configured_type() {
    let mut control = EchoRemovalControl::default();
    assert_eq!(transparent_mode_selection(false, &control), Some(TransparentModeType::Legacy));
    control.transparent_mode = TransparentModeType::Hmm;
    assert_eq!(transparent_mode_selection(false, &control), Some(TransparentModeType::Hmm));
}

#[test]
fn legacy_activates_after_six_seconds_of_strong_render() {
    let control = EchoRemovalControl::default();
    let mut legacy = LegacyTransparentMode::new(&control);
    let s = state(false, true);
    for _ in 0..1500 {
        legacy.update(&s);
    }
    assert!(!legacy.active());
    legacy.update(&s);
    assert!(legacy.active());
    assert_eq!(legacy.blocks_seen(), 1501);
}

#[test]
fn legacy_ignores_inactive_render() {
    let control = EchoRemovalControl::default();
    let mut legacy = LegacyTransparentMode::new(&control);
    let s = state(false, false);
    for _ in 0..3000 {
        legacy.update(&s);
    }
    assert!(!legacy.active());
}

#[test]
fn legacy_deactivates_after_convergence() {
    let control = EchoRemovalControl::default();
    let mut legacy = LegacyTransparentMode::new(&control);
    for _ in 0..2000 {
        legacy.update(&state(false, true));
    }
    assert!(legacy.active());
    for _ in 0..51 {
        legacy.update(&state(true, true));
    }
    assert!(!legacy.active());
}

#[test]
fn legacy_reset_restarts_strong_render_count() {
    let control = EchoRemovalControl::default();
    let mut legacy = LegacyTransparentMode::new(&control);
    let s = state(false, true);
    for _ in 0..1000 {
        legacy.update(&s);
    }
    legacy.reset();
    for _ in 0..1000 {
        legacy.update(&s);
    }
    assert!(!legacy.active());
}
