use audio_engine::effects::{
    MasterEffects, DEFAULT_CLIP_AMOUNT, DEFAULT_LIMITER_THRESHOLD, DEFAULT_MASTER_VOLUME,
    MAX_CLIP_AMOUNT,
};
use audio_engine::fixed::Fixed;
use audio_engine::tracks::{any_soloed, TrackState, DEFAULT_TRACK_VOLUME, TRACK_COUNT};

fn track(muted: bool, soloed: bool) -> TrackState {
    TrackState { muted, soloed, ..TrackState::initial() }
}

#[test]
fn initial_track() {
    let t = TrackState::initial();
    assert_eq!(t.volume, Fixed::from_micros(700_000));
    assert_eq!(t.pan, Fixed::zero());
    assert!(!t.muted);
    assert!(!t.soloed);
    assert_eq!(DEFAULT_TRACK_VOLUME, 700_000);
    assert_eq!(TRACK_COUNT, 7);
}

#[test]
fn any_soloed_finds_a_solo_anywhere() {
    assert!(!any_soloed(&vec![]));
    assert!(!any_soloed(&vec![track(false, false), track(true, false)]));
    assert!(any_soloed(&vec![track(false, true), track(false, false)]));
    assert!(any_soloed(&vec![track(false, false), track(false, false), track(true, true)]));
}

#[test]
fn muted_track_never_sounds() {
    assert!(!track(true, false).audible(false));
    assert!(!track(true, false).audible(true));
    assert!(!track(true, true).audible(false));
    assert!(!track(true, true).audible(true));
}

#[test]
fn solo_silences_tracks_that_are_not_soloed() {
    assert!(track(false, false).audible(false));
    assert!(!track(false, false).audible(true));
    assert!(track(false, true).audible(true));
    assert!(track(false, true).audible(false));
}

#[test]
fn initial_effects() {
    let e = MasterEffects::initial();
    assert_eq!(e.eq_low, Fixed::zero());
    assert_eq!(e.eq_mid, Fixed::zero());
    assert_eq!(e.eq_high, Fixed::zero());
    assert_eq!(e.limiter_threshold, Fixed::from_micros(950_000));
    assert_eq!(e.clip_amount, Fixed::from_micros(2_000_000));
    assert_eq!(MasterEffects::default(), e);
    assert_eq!(DEFAULT_LIMITER_THRESHOLD, 950_000);
    assert_eq!(DEFAULT_CLIP_AMOUNT, 2_000_000);
    assert_eq!(MAX_CLIP_AMOUNT, 10_000_000);
    assert_eq!(DEFAULT_MASTER_VOLUME, 800_000);
}

#[test]
fn applied_effects_clamp_threshold_and_clip_amount() {
    let e = MasterEffects {
        eq_low: Fixed::from_micros(-40_000_000),
        eq_mid: Fixed::from_micros(3_000_000),
        eq_high: Fixed::from_micros(99_000_000),
        limiter_threshold: Fixed::from_micros(1_500_000),
        clip_amount: Fixed::from_micros(12_000_000),
    };
    let a = e.applied();
    assert_eq!(a.eq_low, e.eq_low);
    assert_eq!(a.eq_mid, e.eq_mid);
    assert_eq!(a.eq_high, e.eq_high);
    assert_eq!(a.limiter_threshold, Fixed::one());
    assert_eq!(a.clip_amount, Fixed::from_micros(10_000_000));

    let low = MasterEffects {
        limiter_threshold: Fixed::from_micros(-1),
        clip_amount: Fixed::from_micros(-1),
        ..e
    };
    assert_eq!(low.applied().limiter_threshold, Fixed::zero());
    assert_eq!(low.applied().clip_amount, Fixed::zero());
}

#[test]
fn applied_effects_are_a_fixed_point() {
    let e = MasterEffects {
        limiter_threshold: Fixed::from_micros(7_000_000),
        clip_amount: Fixed::from_micros(-3),
        ..MasterEffects::initial()
    };
    assert_eq!(e.applied().applied(), e.applied());
    assert_eq!(MasterEffects::initial().applied(), MasterEffects::initial());
}
