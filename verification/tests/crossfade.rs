//! The bypass crossfade.

use nam_plug::crossfade::{BypassCrossfader, SampleSource, BYPASS_XFADE_SAMPLES};

const BYPASS_XFADE_INV: f32 = 1.0 / BYPASS_XFADE_SAMPLES as f32;

/// Fully wet, in 64ths.
const WET: i32 = 64;

fn as_f32(in_64ths: i32) -> f32 {
    in_64ths as f32 / 64.0
}

#[test]
fn test_bypass_crossfader_initial_state() {
    let xfader_dry = BypassCrossfader::new(true);
    assert!(xfader_dry.target);
    assert_eq!(xfader_dry.mix, 0);
    assert!(!xfader_dry.active);
    assert_eq!(xfader_dry.remaining, 0);

    let xfader_wet = BypassCrossfader::new(false);
    assert!(!xfader_wet.target);
    assert_eq!(xfader_wet.mix, WET);
    assert!(!xfader_wet.active);
    assert_eq!(xfader_wet.remaining, 0);
}

#[test]
fn test_bypass_crossfader_single_transition() {
    let mut xfader = BypassCrossfader::new(false);
    xfader.trigger(true);

    assert!(xfader.target);
    assert!(xfader.active);
    assert_eq!(xfader.remaining, BYPASS_XFADE_SAMPLES);
    assert_eq!(as_f32(xfader.step), -BYPASS_XFADE_INV);
    assert_eq!(xfader.mix, WET);
}

#[test]
fn test_bypass_crossfader_rapid_toggle_under_64_samples() {
    let mut xfader = BypassCrossfader::new(false);

    // First trigger: bypass ON (towards dry, mix = 0.0)
    xfader.trigger(true);
    assert_eq!(xfader.remaining, 64);

    // Advance 20 samples along the ramp towards 0.0
    for _ in 0..20 {
        xfader.mix += xfader.step;
        xfader.remaining -= 1;
    }
    let mix_at_sample_20 = as_f32(xfader.mix);
    let expected_mix_20 = 1.0 - 20.0 * (1.0 / 64.0);
    assert!((mix_at_sample_20 - expected_mix_20).abs() < 1e-6);
    assert_eq!(xfader.remaining, 44);

    // Rapid toggle (< 64 samples elapsed): trigger bypass OFF (towards wet, mix = 1.0)
    xfader.trigger(false);

    // Verify state reset and continuity:
    assert!(!xfader.target);
    assert!(xfader.active);
    assert_eq!(xfader.remaining, BYPASS_XFADE_SAMPLES);
    assert_eq!(as_f32(xfader.step), BYPASS_XFADE_INV);
    assert_eq!(as_f32(xfader.mix), mix_at_sample_20);

    // Advance 10 samples along the reversed ramp towards 1.0
    for _ in 0..10 {
        xfader.mix += xfader.step;
        xfader.remaining -= 1;
    }
    let mix_at_sample_30 = as_f32(xfader.mix);
    let expected_mix_30 = mix_at_sample_20 + 10.0 * (1.0 / 64.0);
    assert!((mix_at_sample_30 - expected_mix_30).abs() < 1e-6);
    assert_eq!(xfader.remaining, 54);

    // Rapid toggle again (< 64 samples elapsed since previous toggle): trigger bypass ON
    xfader.trigger(true);

    assert!(xfader.target);
    assert_eq!(xfader.remaining, BYPASS_XFADE_SAMPLES);
    assert_eq!(as_f32(xfader.step), -BYPASS_XFADE_INV);
    assert_eq!(as_f32(xfader.mix), mix_at_sample_30);
}

#[test]
fn test_bypass_crossfader_duplicate_trigger_ignored() {
    let mut xfader = BypassCrossfader::new(false);
    xfader.trigger(true);
    assert_eq!(xfader.remaining, 64);

    for _ in 0..10 {
        xfader.mix += xfader.step;
        xfader.remaining -= 1;
    }
    let remaining_before = xfader.remaining;
    let mix_before = xfader.mix;

    xfader.trigger(true);
    assert_eq!(xfader.remaining, remaining_before);
    assert_eq!(xfader.mix, mix_before);
}

#[test]
fn ramp_blends_then_settles_on_the_target() {
    let mut xfader = BypassCrossfader::new(false);
    xfader.trigger(true);
    assert_eq!(xfader.source(0, 100, 100), SampleSource::Blend { mix: 64 });
    assert_eq!(xfader.source(63, 100, 100), SampleSource::Blend { mix: 1 });
    assert_eq!(xfader.source(64, 100, 100), SampleSource::Dry);
    // Without a captured dry sample only the scaled wet signal, then silence, is left.
    assert_eq!(
        xfader.source(10, 100, 10),
        SampleSource::ScaledWet { mix: 54 }
    );
    assert_eq!(xfader.source(70, 100, 10), SampleSource::Silence);

    xfader.advance(40);
    assert!(xfader.active);
    assert_eq!((xfader.mix, xfader.remaining), (24, 24));
    xfader.advance(60);
    assert!(!xfader.active);
    assert_eq!((xfader.mix, xfader.remaining), (0, 0));

    xfader.trigger(false);
    assert_eq!(xfader.source(0, 16, 16), SampleSource::Blend { mix: 0 });
    xfader.advance(64);
    assert!(!xfader.active);
    assert_eq!(xfader.mix, WET);
}

#[test]
fn reversed_ramp_stays_between_dry_and_wet() {
    let mut xfader = BypassCrossfader::new(false);
    xfader.trigger(true);
    xfader.advance(16);
    assert_eq!(xfader.mix, 48);
    xfader.trigger(false);
    // 48 + 32 would leave the range.
    xfader.advance(32);
    assert_eq!((xfader.mix, xfader.remaining), (WET, 32));
    assert_eq!(xfader.source(20, 64, 64), SampleSource::Blend { mix: 64 });
    assert_eq!(xfader.source(40, 64, 64), SampleSource::Wet);
    xfader.advance(32);
    assert_eq!((xfader.mix, xfader.active), (WET, false));
}

#[test]
fn cut_of_a_full_ramp_is_not_heard() {
    for bypass in [false, true] {
        let mut whole = BypassCrossfader::new(!bypass);
        whole.trigger(bypass);
        for first in [1, 10, 63] {
            let mut cut = whole;
            cut.advance(first);
            for i in 0..80 {
                assert_eq!(
                    cut.source(i, 80, 80),
                    whole.source(first + i, first + 80, first + 80)
                );
            }
        }
    }
}

#[test]
fn reversed_ramp_is_clamped_within_a_block() {
    for bypass in [false, true] {
        let mut xfader = BypassCrossfader::new(!bypass);
        xfader.trigger(bypass);
        xfader.advance(16);
        xfader.trigger(!bypass);
        // The ramp back is longer than the way that is left.
        for i in 0..64 {
            let away = 16usize.saturating_sub(i) as i32;
            let mix = if bypass { WET - away } else { away };
            assert_eq!(xfader.source(i, 64, 64), SampleSource::Blend { mix });
            assert_eq!(xfader.source(i, 64, i), SampleSource::ScaledWet { mix });
        }
        for first in [1, 15, 16, 40, 63] {
            let mut cut = xfader;
            cut.advance(first);
            for i in 0..64 {
                assert_eq!(
                    cut.source(i, 64, 64),
                    xfader.source(first + i, first + 64, first + 64)
                );
            }
        }
    }
}
