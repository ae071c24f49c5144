use audio_engine::fixed::Fixed;
use audio_engine::transport::{
    is_step_due, samples_per_step, AudioState, CYCLE_LENGTH, DEFAULT_BPM, STEPS_PER_BEAT,
};

#[test]
fn transport_constants() {
    assert_eq!(CYCLE_LENGTH, 32);
    assert_eq!(STEPS_PER_BEAT, 4);
    assert_eq!(DEFAULT_BPM, 128);
}

#[test]
fn step_length_at_120_bpm_and_48_khz() {
    assert_eq!(samples_per_step(48_000, 120), Some(6000));
}

#[test]
fn step_length_rounds_up() {
    assert_eq!(samples_per_step(48_000, 128), Some(5625));
    assert_eq!(samples_per_step(44_100, 128), Some(5168));
    assert_eq!(samples_per_step(44_100, 120), Some(5513));
    assert_eq!(samples_per_step(48_000, 1), Some(720_000));
    assert_eq!(samples_per_step(1, 1), Some(15));
    assert_eq!(samples_per_step(1, 16), Some(1));
    assert_eq!(samples_per_step(0, 120), Some(0));
    assert_eq!(samples_per_step(u32::MAX, 1), Some(64_424_509_425));
    assert_eq!(samples_per_step(48_000, u64::MAX), Some(1));
}

#[test]
fn no_step_length_at_tempo_zero() {
    assert_eq!(samples_per_step(48_000, 0), None);
    assert_eq!(samples_per_step(0, 0), None);
}

#[test]
fn step_is_due_from_the_threshold_on() {
    assert!(!is_step_due(0, 48_000, 120));
    assert!(!is_step_due(5999, 48_000, 120));
    assert!(is_step_due(6000, 48_000, 120));
    assert!(is_step_due(6001, 48_000, 120));
    assert!(is_step_due(u64::MAX, 48_000, 120));
    assert!(!is_step_due(5167, 44_100, 128));
    assert!(is_step_due(5168, 44_100, 128));
}

#[test]
fn step_is_never_due_at_tempo_zero() {
    assert!(!is_step_due(0, 48_000, 0));
    assert!(!is_step_due(u64::MAX, 48_000, 0));
    assert!(!is_step_due(u64::MAX, 0, 0));
}

#[test]
fn step_is_always_due_without_a_sample_rate() {
    assert!(is_step_due(0, 0, 120));
    assert!(is_step_due(1, 0, 1));
}

#[test]
fn step_check_agrees_with_step_length() {
    for (rate, bpm) in [(48_000u32, 120u64), (44_100, 128), (96_000, 77), (8_000, 300), (22_050, 1)] {
        let n = samples_per_step(rate, bpm).unwrap();
        assert!(is_step_due(n, rate, bpm));
        assert!(!is_step_due(n - 1, rate, bpm));
    }
}

#[test]
fn snapshot_reduces_the_counter_to_the_cycle() {
    let s = AudioState::of(true, 33, 128);
    assert_eq!(s.is_playing, true);
    assert_eq!(s.current_step, 1);
    assert_eq!(s.bpm, 128);
    assert_eq!(s.cpu_usage, Fixed::zero());
    assert_eq!(AudioState::of(false, 31, 90).current_step, 31);
    assert_eq!(AudioState::of(false, 32, 90).current_step, 0);
    assert_eq!(AudioState::of(false, u64::MAX, 90).current_step, 31);
}
