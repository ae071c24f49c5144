use audio_engine::fixed::{Fixed, UNIT};

fn fx(micros: i64) -> Fixed {
    Fixed::from_micros(micros)
}

#[test]
fn unit_is_a_million() {
    assert_eq!(UNIT, 1_000_000);
    assert_eq!(Fixed::one().micros, 1_000_000);
    assert_eq!(Fixed::zero().micros, 0);
    assert_eq!(Fixed::minus_one().micros, -1_000_000);
}

#[test]
fn clamp_leaves_inside_values() {
    assert_eq!(fx(500_000).clamp(Fixed::zero(), Fixed::one()), fx(500_000));
    assert_eq!(fx(0).clamp(Fixed::zero(), Fixed::one()), fx(0));
    assert_eq!(fx(1_000_000).clamp(Fixed::zero(), Fixed::one()), fx(1_000_000));
}

#[test]
fn clamp_cuts_outside_values() {
    assert_eq!(fx(1_500_000).clamp(Fixed::zero(), Fixed::one()), fx(1_000_000));
    assert_eq!(fx(-1).clamp(Fixed::zero(), Fixed::one()), fx(0));
    assert_eq!(fx(-2_000_000).clamp(Fixed::minus_one(), Fixed::one()), fx(-1_000_000));
    assert_eq!(fx(i64::MAX).clamp(Fixed::minus_one(), Fixed::one()), fx(1_000_000));
    assert_eq!(fx(i64::MIN).clamp(Fixed::minus_one(), Fixed::one()), fx(-1_000_000));
}

#[test]
fn clamp_twice_is_clamp_once() {
    for micros in [-3_000_000, -1, 0, 1, 999_999, 1_000_000, 1_000_001, 7_000_000] {
        let once = fx(micros).clamp(Fixed::zero(), Fixed::one());
        assert_eq!(once.clamp(Fixed::zero(), Fixed::one()), once);
    }
}

#[test]
fn whole_rounds_toward_zero() {
    assert_eq!(fx(120_000_000).whole(), 120);
    assert_eq!(fx(120_999_999).whole(), 120);
    assert_eq!(fx(999_999).whole(), 0);
    assert_eq!(fx(0).whole(), 0);
    assert_eq!(fx(i64::MAX).whole(), 9_223_372_036_854);
}

#[test]
fn whole_of_a_negative_number_is_zero() {
    assert_eq!(fx(-1).whole(), 0);
    assert_eq!(fx(-5_000_000).whole(), 0);
    assert_eq!(fx(i64::MIN).whole(), 0);
}

#[test]
fn from_whole_scales_and_saturates() {
    assert_eq!(Fixed::from_whole(0), fx(0));
    assert_eq!(Fixed::from_whole(128), fx(128_000_000));
    assert_eq!(Fixed::from_whole(9_223_372_036_854), fx(9_223_372_036_854_000_000));
    assert_eq!(Fixed::from_whole(9_223_372_036_855), fx(i64::MAX));
    assert_eq!(Fixed::from_whole(u64::MAX), fx(i64::MAX));
}

#[test]
fn whole_numbers_survive_the_round_trip() {
    for bpm in [0u64, 1, 60, 120, 128, 999, 9_223_372_036_854] {
        assert_eq!(Fixed::from_whole(bpm).whole(), bpm);
    }
    assert_eq!(Fixed::from_whole(u64::MAX).whole(), 9_223_372_036_854);
}
