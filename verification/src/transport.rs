//! Transport: the published snapshot and the timing of pattern steps.

use crate::fixed::Fixed;
use vstd::prelude::*;

verus! {

/// Steps in one pattern cycle.
pub const CYCLE_LENGTH: u64 = 32;

/// Steps in one beat: a step is a sixteenth note.
pub const STEPS_PER_BEAT: u64 = 4;

/// Tempo at start, in beats per minute.
pub const DEFAULT_BPM: u64 = 128;

/// A snapshot of the transport, as the control surface sees it.
#[derive(Clone, Copy, Debug, PartialEq, Eq, Structural)]
pub struct AudioState {
    pub is_playing: bool,
    /// Position in the cycle, below `CYCLE_LENGTH`.
    pub current_step: usize,
    /// Tempo in beats per minute.
    pub bpm: u64,
    /// Estimate of the processing load, from 0 to 1.
    pub cpu_usage: Fixed,
}

impl AudioState {
    /// The snapshot of a transport whose step counter stands at
    /// `step_counter`: the position is the counter reduced to the cycle,
    /// the load estimate is zero.
    pub open spec fn spec_of(is_playing: bool, step_counter: u64, bpm: u64) -> AudioState {
        AudioState {
            is_playing,
            current_step: (step_counter % CYCLE_LENGTH) as usize,
            bpm,
            cpu_usage: Fixed { micros: 0 },
        }
    }

    /// The snapshot of a transport whose step counter stands at
    /// `step_counter`.
    pub fn of(is_playing: bool, step_counter: u64, bpm: u64) -> (s: AudioState)
        ensures
            s == AudioState::spec_of(is_playing, step_counter, bpm),
            s.current_step < CYCLE_LENGTH,
    {
        AudioState {
            is_playing,
            current_step: (step_counter % CYCLE_LENGTH) as usize,
            bpm,
            cpu_usage: Fixed { micros: 0 },
        }
    }
}

/// Whether a step is due once `frames` frames have gone by since the last
/// one: a step lasts `sample_rate * 60 / (bpm * 4)` frames, a sixteenth
/// note at the tempo. At tempo zero no step is ever due.
pub open spec fn step_due(frames: nat, sample_rate: nat, bpm: nat) -> bool {
    bpm > 0 && frames * bpm * STEPS_PER_BEAT >= sample_rate * 60
}

/// The length of a step in frames, rounded up to a whole frame:
/// `sample_rate * 60 / (bpm * 4)`, which is `sample_rate * 15 / bpm`.
pub open spec fn spec_samples_per_step(sample_rate: nat, bpm: nat) -> nat
    recommends
        bpm > 0,
{
    ((sample_rate * 15 + bpm - 1) / (bpm as int)) as nat
}

/// The position that follows `step` in the cycle.
pub open spec fn spec_next_step(step: u64) -> u64 {
    ((step + 1) % CYCLE_LENGTH as int) as u64
}

/// A step is due exactly from the frame on at which the count reaches the
/// length of a step.
pub proof fn lemma_step_threshold(frames: nat, sample_rate: nat, bpm: nat)
    requires
        bpm > 0,
    ensures
        step_due(frames, sample_rate, bpm) <==> frames >= spec_samples_per_step(sample_rate, bpm),
{
    let n: int = (sample_rate * 15) as int;
    let d: int = bpm as int;
    let x: int = n + d - 1;
    let c: int = x / d;
    vstd::arithmetic::div_mod::lemma_fundamental_div_mod(x, d);
    vstd::arithmetic::div_mod::lemma_mod_bound(x, d);
    assert(d * c >= n);
    assert(d * (c - 1) < n) by (nonlinear_arith)
        requires
            d * c <= n + d - 1,
    ;
    assert(c >= 0) by (nonlinear_arith)
        requires
            d * c >= n,
            d * (c - 1) < n,
            n >= 0,
            d > 0,
    ;
    if frames >= c {
        assert(frames * d >= n) by (nonlinear_arith)
            requires
                frames >= c,
                d * c >= n,
                d > 0,
        ;
    } else {
        assert(frames * d < n) by (nonlinear_arith)
            requires
                frames <= c - 1,
                d * (c - 1) < n,
                d > 0,
        ;
    }
    assert(frames * bpm * STEPS_PER_BEAT == (frames * d) * 4) by (nonlinear_arith)
        requires
            d == bpm,
    ;
}

/// A step lasts at least one frame wherever frames take time, and never
/// more frames than a quarter of a minute holds.
pub proof fn lemma_step_length_bounds(sample_rate: nat, bpm: nat)
    requires
        bpm > 0,
    ensures
        spec_samples_per_step(sample_rate, bpm) <= sample_rate * 15,
        sample_rate > 0 ==> spec_samples_per_step(sample_rate, bpm) > 0,
{
    lemma_step_threshold(0, sample_rate, bpm);
    lemma_step_threshold(sample_rate * 15, sample_rate, bpm);
    assert(0 * bpm * STEPS_PER_BEAT == 0) by (nonlinear_arith);
    assert((sample_rate * 15) * bpm * STEPS_PER_BEAT >= sample_rate * 60) by (nonlinear_arith)
        requires
            bpm >= 1,
    ;
}

/// Whether a step is due once `frames` frames have gone by since the last
/// one.
pub fn is_step_due(frames: u64, sample_rate: u32, bpm: u64) -> (due: bool)
    ensures
        due == step_due(frames as nat, sample_rate as nat, bpm as nat),
{
    if bpm == 0 {
        return false;
    }
    assert(frames * bpm <= 0xffff_ffff_ffff_ffff * 0xffff_ffff_ffff_ffff) by (nonlinear_arith)
        requires
            0 <= frames <= 0xffff_ffff_ffff_ffff,
            0 <= bpm <= 0xffff_ffff_ffff_ffff,
    ;
    let beats: u128 = frames as u128 * bpm as u128;
    let quarter: u128 = sample_rate as u128 * 15;
    assert(frames * bpm * STEPS_PER_BEAT == (frames * bpm) * 4) by (nonlinear_arith);
    beats >= quarter
}

/// The length of a step in frames, rounded up to a whole frame; none at
/// tempo zero, where no step ever comes.
pub fn samples_per_step(sample_rate: u32, bpm: u64) -> (n: Option<u64>)
    ensures
        bpm == 0 <==> n is None,
        bpm > 0 ==> n == Some(spec_samples_per_step(sample_rate as nat, bpm as nat) as u64),
        bpm > 0 ==> spec_samples_per_step(sample_rate as nat, bpm as nat) <= sample_rate * 15,
{
    if bpm == 0 {
        return None;
    }
    let total: u64 = sample_rate as u64 * 15;
    let whole: u64 = total / bpm;
    let n: u64 = if total % bpm == 0 {
        whole
    } else {
        whole + 1
    };
    proof {
        let c = spec_samples_per_step(sample_rate as nat, bpm as nat);
        lemma_step_threshold(n as nat, sample_rate as nat, bpm as nat);
        vstd::arithmetic::div_mod::lemma_fundamental_div_mod(total as int, bpm as int);
        vstd::arithmetic::div_mod::lemma_mod_bound(total as int, bpm as int);
        let r: int = total as int % bpm as int;
        assert(bpm * whole <= total);
        assert(n * bpm * STEPS_PER_BEAT >= sample_rate * 60) by (nonlinear_arith)
            requires
                total == bpm * whole + r,
                total == sample_rate * 15,
                0 <= r < bpm,
                n == (if r == 0 {
                    whole as int
                } else {
                    whole + 1
                }),
        ;
        assert(n == 0 || (n - 1) * bpm * STEPS_PER_BEAT < sample_rate * 60) by (nonlinear_arith)
            requires
                total == bpm * whole + r,
                total == sample_rate * 15,
                0 <= r < bpm,
                whole >= 0,
                n == (if r == 0 {
                    whole as int
                } else {
                    whole + 1
                }),
        ;
        assert(n >= c);
        if n > 0 {
            lemma_step_threshold((n - 1) as nat, sample_rate as nat, bpm as nat);
        }
        assert(n == c);
        assert(whole <= bpm * whole) by (nonlinear_arith)
            requires
                bpm >= 1,
                whole >= 0,
        ;
    }
    Some(n)
}

} // verus!
