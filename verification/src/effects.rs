//! The parameters of the master bus. They are the source of truth: the
//! signal chain is retargeted from them at the start of every buffer.

use crate::fixed::{Fixed, UNIT};
use vstd::prelude::*;

verus! {

/// Limiter threshold at start: 0.95.
pub const DEFAULT_LIMITER_THRESHOLD: i64 = 950_000;

/// Clip amount at start: 2.
pub const DEFAULT_CLIP_AMOUNT: i64 = 2_000_000;

/// Largest clip amount that the soft clipper takes: 10.
pub const MAX_CLIP_AMOUNT: i64 = 10_000_000;

/// Master volume at start: 0.8.
pub const DEFAULT_MASTER_VOLUME: i64 = 800_000;

/// The parameters of the master effects, as commands left them.
#[derive(Clone, Copy, Debug, PartialEq, Eq, Structural)]
pub struct MasterEffects {
    /// Gain of the low shelf, in decibels.
    pub eq_low: Fixed,
    /// Gain of the mid peak, in decibels.
    pub eq_mid: Fixed,
    /// Gain of the high shelf, in decibels.
    pub eq_high: Fixed,
    /// Level above which the limiter reduces gain.
    pub limiter_threshold: Fixed,
    /// Drive of the soft clipper.
    pub clip_amount: Fixed,
}

impl MasterEffects {
    /// The parameters at start: flat equalizer, threshold 0.95, clip
    /// amount 2.
    pub open spec fn spec_initial() -> MasterEffects {
        MasterEffects {
            eq_low: Fixed { micros: 0 },
            eq_mid: Fixed { micros: 0 },
            eq_high: Fixed { micros: 0 },
            limiter_threshold: Fixed { micros: DEFAULT_LIMITER_THRESHOLD },
            clip_amount: Fixed { micros: DEFAULT_CLIP_AMOUNT },
        }
    }

    /// The values that the signal chain is set to: the gains as they are,
    /// the threshold brought into 0 to 1, the clip amount into 0 to 10.
    pub open spec fn spec_applied(self) -> MasterEffects {
        MasterEffects {
            limiter_threshold: self.limiter_threshold.spec_clamp(
                Fixed { micros: 0 },
                Fixed { micros: UNIT },
            ),
            clip_amount: self.clip_amount.spec_clamp(
                Fixed { micros: 0 },
                Fixed { micros: MAX_CLIP_AMOUNT },
            ),
            ..self
        }
    }

    pub fn initial() -> (e: MasterEffects)
        ensures
            e == MasterEffects::spec_initial(),
    {
        MasterEffects {
            eq_low: Fixed { micros: 0 },
            eq_mid: Fixed { micros: 0 },
            eq_high: Fixed { micros: 0 },
            limiter_threshold: Fixed { micros: DEFAULT_LIMITER_THRESHOLD },
            clip_amount: Fixed { micros: DEFAULT_CLIP_AMOUNT },
        }
    }

    /// The values that the signal chain is set to at the start of a
    /// buffer.
    pub fn applied(&self) -> (e: MasterEffects)
        ensures
            e == self.spec_applied(),
            0 <= e.limiter_threshold.micros <= UNIT,
            0 <= e.clip_amount.micros <= MAX_CLIP_AMOUNT,
    {
        MasterEffects {
            eq_low: self.eq_low,
            eq_mid: self.eq_mid,
            eq_high: self.eq_high,
            limiter_threshold: self.limiter_threshold.clamp(
                Fixed { micros: 0 },
                Fixed { micros: UNIT },
            ),
            clip_amount: self.clip_amount.clamp(
                Fixed { micros: 0 },
                Fixed { micros: MAX_CLIP_AMOUNT },
            ),
        }
    }
}

impl Default for MasterEffects {
    fn default() -> (e: MasterEffects)
        ensures
            e == MasterEffects::spec_initial(),
    {
        MasterEffects::initial()
    }
}

/// Retargeting the signal chain from unchanged parameters changes nothing:
/// what was applied once is what is applied again.
pub proof fn lemma_applied_idempotent(e: MasterEffects)
    ensures
        e.spec_applied().spec_applied() == e.spec_applied(),
{
}

} // verus!
