use sendspin_client::software_gain::{
    clamp_i24, scale_sample, volume_to_gain, SoftwareGainState, GAIN_EPSILON, MAX_I24, MIN_I24,
    UNITY_GAIN,
};

/// A gain in fixed-point units as a floating-point factor.
fn factor(gain: u32) -> f32 {
    gain as f32 / UNITY_GAIN as f32
}

/// Applies the gain state to floating-point samples: the state supplies the
/// gain of each sample and moves its ramp on.
fn apply(state: &mut SoftwareGainState, samples: &mut [f32]) {
    let settled = state.ramp_samples_remaining == 0;
    let gain = state.current_gain();
    if settled && UNITY_GAIN - gain < GAIN_EPSILON {
        return;
    }
    if settled && gain < GAIN_EPSILON {
        for sample in samples.iter_mut() {
            *sample = 0.0;
        }
        return;
    }
    if settled {
        for sample in samples.iter_mut() {
            *sample *= factor(gain);
        }
        return;
    }
    for sample in samples.iter_mut() {
        *sample *= factor(state.current_gain());
        state.advance();
    }
}

#[test]
fn volume_to_gain_boundaries() {
    assert_eq!(factor(volume_to_gain(100)), 1.0);
    assert_eq!(factor(volume_to_gain(0)), 0.0);
}

#[test]
fn volume_to_gain_intermediate() {
    let gain_50 = factor(volume_to_gain(50));
    assert!((gain_50 - 0.0625).abs() < 0.001, "50% should be ~0.0625, got {}", gain_50);

    let mut prev = 0.0f32;
    for v in 1..=100 {
        let g = factor(volume_to_gain(v));
        assert!(g > prev, "gain should increase: vol={}, gain={}, prev={}", v, g, prev);
        prev = g;
    }
}

#[test]
fn volume_to_gain_clamps_above_100() {
    assert_eq!(factor(volume_to_gain(255)), 1.0);
}

#[test]
fn apply_unity_gain_is_noop() {
    let mut state = SoftwareGainState::new(48000);
    let untouched = vec![0.5, -0.3, 1.0, -1.0, 0.0];
    let mut samples = untouched.clone();
    apply(&mut state, &mut samples);
    assert_eq!(samples, untouched);
}

#[test]
fn apply_zero_volume_produces_silence() {
    let mut state = SoftwareGainState::new(48000);
    state.set_volume(0);
    let mut ramp_buf = vec![0.0f32; 48000];
    apply(&mut state, &mut ramp_buf);
    let mut samples = vec![0.5, -0.3, 1.0, -1.0, 0.123];
    apply(&mut state, &mut samples);
    for s in &samples {
        assert_eq!(*s, 0.0);
    }
}

#[test]
fn apply_intermediate_volume() {
    let mut state = SoftwareGainState::new(48000);
    state.set_volume(50);
    let mut ramp_buf = vec![0.0f32; 48000];
    apply(&mut state, &mut ramp_buf);
    let gain = factor(volume_to_gain(50));
    let mut samples = vec![1.0, -1.0, 0.5];
    apply(&mut state, &mut samples);
    assert!((samples[0] - gain).abs() < 1e-6);
    assert!((samples[1] - (-gain)).abs() < 1e-6);
    assert!((samples[2] - 0.5 * gain).abs() < 1e-6);
}

#[test]
fn ramp_produces_smooth_transition() {
    let sample_rate = 48000u32;
    let mut state = SoftwareGainState::new(sample_rate);
    state.set_volume(0);

    let ramp_samples = (sample_rate as f32 * 0.020) as usize;
    let mut samples = vec![1.0f32; ramp_samples + 100];
    apply(&mut state, &mut samples);

    assert!(samples[0] > 0.9, "first sample should be near unity: {}", samples[0]);

    let mid = ramp_samples / 2;
    assert!(
        samples[mid] > 0.0 && samples[mid] < 1.0,
        "mid-ramp should be intermediate: {}",
        samples[mid]
    );

    assert!(
        (samples[ramp_samples + 50]).abs() < 1e-6,
        "post-ramp should be zero: {}",
        samples[ramp_samples + 50]
    );

    for i in 1..ramp_samples {
        assert!(
            samples[i] <= samples[i - 1] + 1e-6,
            "ramp should be monotonically decreasing at sample {}",
            i
        );
    }
}

#[test]
fn mute_and_unmute() {
    let mut state = SoftwareGainState::new(48000);
    state.set_volume(50);
    let mut buf = vec![0.0f32; 48000];
    apply(&mut state, &mut buf);

    state.set_mute(true);
    let mut buf = vec![0.0f32; 48000];
    apply(&mut state, &mut buf);
    let mut samples = vec![1.0; 10];
    apply(&mut state, &mut samples);
    for s in &samples {
        assert_eq!(*s, 0.0, "muted samples should be zero");
    }

    state.set_mute(false);
    let mut buf = vec![0.0f32; 48000];
    apply(&mut state, &mut buf);
    let gain = factor(volume_to_gain(50));
    let mut samples = vec![1.0; 10];
    apply(&mut state, &mut samples);
    for s in &samples {
        assert!((*s - gain).abs() < 1e-6, "unmuted should restore gain: {}", s);
    }
    assert_eq!(state.volume(), 50);
}

#[test]
fn unity_gain_does_not_modify_samples() {
    let mut state = SoftwareGainState::new(48000);
    let untouched = vec![0.5, -0.3, 1.0, -1.0, 0.0, 0.999, -0.999];
    let mut samples = untouched.clone();
    apply(&mut state, &mut samples);
    assert_eq!(samples, untouched, "unity gain state must not modify samples");
}

#[test]
fn apply_i24_unity_gain_is_noop() {
    let mut state = SoftwareGainState::new(48000);
    let untouched = vec![1000, -1000, 8388607, -8388608, 0];
    let mut samples = untouched.clone();
    state.apply_i24(&mut samples);
    assert_eq!(samples, untouched, "unity gain should not modify i24 samples");
}

#[test]
fn apply_i24_zero_volume_produces_silence() {
    let mut state = SoftwareGainState::new(48000);
    state.set_volume(0);
    let mut ramp_buf = vec![0; 48000];
    state.apply_i24(&mut ramp_buf);
    let mut samples = vec![1000, -1000, 5000, -5000, 123];
    state.apply_i24(&mut samples);
    for s in &samples {
        assert_eq!(*s, 0, "zero volume should produce silence");
    }
}

#[test]
fn apply_i24_clamps_overflow() {
    const MAX_I24: i32 = 8388607;
    const MIN_I24: i32 = -8388608;

    let mut state = SoftwareGainState::new(48000);
    state.set_volume(100);
    let mut ramp_buf = vec![0; 48000];
    state.apply_i24(&mut ramp_buf);

    state.set_volume(50);
    let mut ramp_buf = vec![0; 48000];
    state.apply_i24(&mut ramp_buf);

    let mut samples = vec![i32::MAX];
    state.apply_i24(&mut samples);
    assert!(samples[0] <= MAX_I24, "apply_i24 should clamp to MAX_I24, got {}", samples[0]);

    let mut samples = vec![i32::MIN];
    state.apply_i24(&mut samples);
    assert!(samples[0] >= MIN_I24, "apply_i24 should clamp to MIN_I24, got {}", samples[0]);
}

#[test]
fn gain_curve_exact_values() {
    assert_eq!(volume_to_gain(0), 0);
    assert_eq!(volume_to_gain(1), 1);
    assert_eq!(volume_to_gain(10), 10_000);
    assert_eq!(volume_to_gain(50), 6_250_000);
    assert_eq!(volume_to_gain(99), 96_059_601);
    assert_eq!(volume_to_gain(100), UNITY_GAIN);
    assert_eq!(volume_to_gain(101), UNITY_GAIN);
    assert_eq!(volume_to_gain(255), UNITY_GAIN);
}

#[test]
fn gain_curve_strictly_increasing() {
    for v in 0..100u8 {
        assert!(volume_to_gain(v) < volume_to_gain(v + 1));
    }
}

#[test]
fn ramp_length_is_twenty_milliseconds() {
    assert_eq!(SoftwareGainState::new(48000).ramp_duration_samples, 960);
    assert_eq!(SoftwareGainState::new(44100).ramp_duration_samples, 882);
    assert_eq!(SoftwareGainState::new(96000).ramp_duration_samples, 1920);
    assert_eq!(SoftwareGainState::new(0).ramp_duration_samples, 0);
    assert_eq!(SoftwareGainState::new(25).ramp_duration_samples, 1);
    assert_eq!(SoftwareGainState::new(24).ramp_duration_samples, 0);
    assert_eq!(SoftwareGainState::new(u32::MAX).ramp_duration_samples, 85_899_346);
}

#[test]
fn new_state_is_unity_and_unmuted() {
    let state = SoftwareGainState::new(48000);
    assert_eq!(state.current_gain, UNITY_GAIN);
    assert_eq!(state.target_gain, UNITY_GAIN);
    assert_eq!(state.ramp_samples_remaining, 0);
    assert_eq!(state.ramp_step, 0);
    assert!(!state.is_muted);
    assert_eq!(state.volume(), 100);
}

#[test]
fn set_volume_starts_ramp_with_even_step() {
    let mut state = SoftwareGainState::new(48000);
    state.set_volume(0);
    assert_eq!(state.target_gain, 0);
    assert_eq!(state.current_gain, UNITY_GAIN);
    assert_eq!(state.ramp_samples_remaining, 960);
    assert_eq!(state.ramp_step, -104_166);
    state.advance();
    assert_eq!(state.current_gain, UNITY_GAIN - 104_166);
    assert_eq!(state.ramp_samples_remaining, 959);
}

#[test]
fn ramp_snaps_exactly_to_target() {
    let mut state = SoftwareGainState::new(48000);
    state.set_volume(50);
    let mut buf = vec![0; 959];
    state.apply_i24(&mut buf);
    assert_eq!(state.ramp_samples_remaining, 1);
    assert_ne!(state.current_gain, 6_250_000);
    let mut buf = vec![0; 1];
    state.apply_i24(&mut buf);
    assert_eq!(state.ramp_samples_remaining, 0);
    assert_eq!(state.current_gain, 6_250_000);
}

#[test]
fn ramp_in_i24_is_monotone_and_ends_in_silence() {
    let mut state = SoftwareGainState::new(48000);
    state.set_volume(0);
    let mut samples = vec![8_000_000; 1060];
    state.apply_i24(&mut samples);
    assert_eq!(samples[0], 8_000_000);
    for i in 1..960 {
        assert!(samples[i] <= samples[i - 1]);
    }
    assert!(samples[480] > 0 && samples[480] < 8_000_000);
    for s in &samples[960..] {
        assert_eq!(*s, 0);
    }
}

#[test]
fn rising_ramp_is_monotone() {
    let mut state = SoftwareGainState::new(48000);
    state.set_volume(0);
    let mut buf = vec![0; 960];
    state.apply_i24(&mut buf);
    state.set_volume(100);
    let mut samples = vec![1_000_000; 1000];
    state.apply_i24(&mut samples);
    assert_eq!(samples[0], 0);
    for i in 1..1000 {
        assert!(samples[i] >= samples[i - 1]);
    }
    assert_eq!(samples[960], 1_000_000);
    assert_eq!(samples[999], 1_000_000);
}

#[test]
fn zero_ramp_length_snaps_immediately() {
    let mut state = SoftwareGainState::new(0);
    state.set_volume(50);
    assert_eq!(state.current_gain, 6_250_000);
    assert_eq!(state.ramp_samples_remaining, 0);
    state.set_mute(true);
    assert_eq!(state.current_gain, 0);
    state.set_mute(false);
    assert_eq!(state.current_gain, 6_250_000);
}

#[test]
fn target_within_epsilon_starts_no_ramp() {
    let mut state = SoftwareGainState::new(0);
    state.set_volume(0);
    state.set_sample_rate(48000);
    state.set_volume(1);
    assert_eq!(state.target_gain, 1);
    assert_eq!(state.current_gain, 0);
    assert_eq!(state.ramp_samples_remaining, 0);
    state.set_volume(2);
    assert_eq!(state.target_gain, 16);
    assert_eq!(state.ramp_samples_remaining, 960);
}

#[test]
fn volume_set_while_muted_is_remembered() {
    let mut state = SoftwareGainState::new(48000);
    state.set_mute(true);
    assert_eq!(state.target_gain, 0);
    state.set_volume(30);
    assert_eq!(state.target_gain, 0);
    assert_eq!(state.volume(), 30);
    state.set_mute(false);
    assert_eq!(state.target_gain, volume_to_gain(30));
    let mut buf = vec![0; 960];
    state.apply_i24(&mut buf);
    assert_eq!(state.current_gain, 810_000);
}

#[test]
fn volume_above_range_is_remembered_as_full() {
    let mut state = SoftwareGainState::new(48000);
    state.set_volume(200);
    assert_eq!(state.volume(), 100);
    assert_eq!(state.target_gain, UNITY_GAIN);
}

#[test]
fn set_sample_rate_ends_ramp_on_target() {
    let mut state = SoftwareGainState::new(48000);
    state.set_volume(50);
    state.set_sample_rate(44100);
    assert_eq!(state.current_gain, 6_250_000);
    assert_eq!(state.ramp_samples_remaining, 0);
    assert_eq!(state.ramp_duration_samples, 882);
    assert_eq!(state.volume(), 50);
}

#[test]
fn scale_sample_rounds_half_away_from_zero() {
    assert_eq!(scale_sample(3, 50_000_000), 2);
    assert_eq!(scale_sample(-3, 50_000_000), -2);
    assert_eq!(scale_sample(1, 49_999_999), 0);
    assert_eq!(scale_sample(-1, 49_999_999), 0);
    assert_eq!(scale_sample(1000, 6_250_000), 63);
    assert_eq!(scale_sample(-1000, 6_250_000), -63);
    assert_eq!(scale_sample(8_388_607, UNITY_GAIN), 8_388_607);
    assert_eq!(scale_sample(12345, 0), 0);
}

#[test]
fn scale_sample_clamps_extremes() {
    assert_eq!(scale_sample(i32::MAX, 6_250_000), MAX_I24);
    assert_eq!(scale_sample(i32::MIN, 6_250_000), MIN_I24);
    assert_eq!(scale_sample(i32::MAX, UNITY_GAIN), MAX_I24);
    assert_eq!(scale_sample(i32::MIN, UNITY_GAIN), MIN_I24);
}

#[test]
fn clamp_i24_limits() {
    assert_eq!(clamp_i24(0), 0);
    assert_eq!(clamp_i24(8_388_607), 8_388_607);
    assert_eq!(clamp_i24(8_388_608), 8_388_607);
    assert_eq!(clamp_i24(-8_388_608), -8_388_608);
    assert_eq!(clamp_i24(-8_388_609), -8_388_608);
    assert_eq!(clamp_i24(i64::MAX), MAX_I24);
    assert_eq!(clamp_i24(i64::MIN), MIN_I24);
    assert_eq!(clamp_i24(-5), -5);
}

#[test]
fn constant_gain_scales_each_sample() {
    let mut state = SoftwareGainState::new(0);
    state.set_volume(50);
    let mut samples = vec![1600, -1600, 16, 8];
    state.apply_i24(&mut samples);
    assert_eq!(samples, vec![100, -100, 1, 1]);
}

#[test]
fn validity_of_gain_states() {
    let mut state = SoftwareGainState::new(48000);
    assert!(state.is_valid());
    state.set_volume(30);
    assert!(state.is_valid());
    for _ in 0..1000 {
        state.advance();
        assert!(state.is_valid());
    }
    state.set_mute(true);
    assert!(state.is_valid());
    let mut broken = state;
    broken.current_gain = UNITY_GAIN + 1;
    assert!(!broken.is_valid());
    let mut broken = state;
    broken.target_gain = 5;
    assert!(!broken.is_valid());
    let mut broken = state;
    broken.ramp_step = 1;
    assert!(!broken.is_valid());
    let mut broken = state;
    broken.ramp_samples_remaining = 961;
    assert!(!broken.is_valid());
    let mut broken = state;
    broken.volume = 101;
    assert!(!broken.is_valid());
}

#[test]
fn advance_outside_a_ramp_changes_nothing() {
    let mut state = SoftwareGainState::new(48000);
    let before = state;
    state.advance();
    assert_eq!(state, before);
    assert_eq!(state.current_gain(), UNITY_GAIN);
}
