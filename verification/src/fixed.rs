//! Signed fixed-point numbers with six decimal places.
//!
//! Control values (volume, pan, gains in decibels, thresholds, tempo) are
//! carried as whole numbers of millionths, so that the rules that clamp and
//! store them are exact.

use vstd::prelude::*;

verus! {

/// Millionths in one whole unit.
pub const UNIT: i64 = 1_000_000;

/// A signed fixed-point number, held as a count of millionths.
#[derive(Clone, Copy, Debug, PartialEq, Eq, Structural)]
pub struct Fixed {
    pub micros: i64,
}

impl Fixed {
    /// The number zero.
    pub open spec fn spec_zero() -> Fixed {
        Fixed { micros: 0 }
    }

    /// The number one.
    pub open spec fn spec_one() -> Fixed {
        Fixed { micros: UNIT }
    }

    /// The number minus one.
    pub open spec fn spec_minus_one() -> Fixed {
        Fixed { micros: (-UNIT) as i64 }
    }

    /// The number `units`, where it can be represented, else the largest
    /// representable number.
    pub open spec fn spec_from_whole(units: u64) -> Fixed {
        if units * UNIT <= i64::MAX {
            Fixed { micros: (units * UNIT) as i64 }
        } else {
            Fixed { micros: i64::MAX }
        }
    }

    /// `self` brought into the closed interval from `lo` to `hi`.
    pub open spec fn spec_clamp(self, lo: Fixed, hi: Fixed) -> Fixed {
        if self.micros < lo.micros {
            lo
        } else if self.micros > hi.micros {
            hi
        } else {
            self
        }
    }

    /// The whole part of `self`, rounding toward zero; zero for a negative
    /// number.
    pub open spec fn spec_whole(self) -> u64 {
        if self.micros <= 0 {
            0
        } else {
            (self.micros / UNIT) as u64
        }
    }

    /// True when `self` lies in the closed interval from `lo` to `hi`.
    pub open spec fn within(self, lo: Fixed, hi: Fixed) -> bool {
        lo.micros <= self.micros <= hi.micros
    }

    pub fn from_micros(micros: i64) -> (r: Fixed)
        ensures
            r.micros == micros,
    {
        Fixed { micros }
    }

    pub fn zero() -> (r: Fixed)
        ensures
            r == Fixed::spec_zero(),
    {
        Fixed { micros: 0 }
    }

    pub fn one() -> (r: Fixed)
        ensures
            r == Fixed::spec_one(),
    {
        Fixed { micros: UNIT }
    }

    pub fn minus_one() -> (r: Fixed)
        ensures
            r == Fixed::spec_minus_one(),
    {
        Fixed { micros: -UNIT }
    }

    /// The number `units`, saturating at the largest representable number.
    pub fn from_whole(units: u64) -> (r: Fixed)
        ensures
            r == Fixed::spec_from_whole(units),
    {
        let limit: u64 = 9_223_372_036_854;
        if units <= limit {
            let scaled: u64 = units * 1_000_000;
            Fixed { micros: scaled as i64 }
        } else {
            Fixed { micros: i64::MAX }
        }
    }

    /// Brings `self` into the closed interval from `lo` to `hi`.
    pub fn clamp(self, lo: Fixed, hi: Fixed) -> (r: Fixed)
        requires
            lo.micros <= hi.micros,
        ensures
            r == self.spec_clamp(lo, hi),
            r.within(lo, hi),
    {
        if self.micros < lo.micros {
            lo
        } else if self.micros > hi.micros {
            hi
        } else {
            self
        }
    }

    /// The whole part of `self`, rounding toward zero; zero for a negative
    /// number.
    pub fn whole(self) -> (r: u64)
        ensures
            r == self.spec_whole(),
    {
        if self.micros <= 0 {
            0
        } else {
            (self.micros / UNIT) as u64
        }
    }
}

/// A number that already lies in an interval is left as it is, so clamping
/// twice gives what clamping once gives.
pub proof fn lemma_clamp_idempotent(x: Fixed, lo: Fixed, hi: Fixed)
    requires
        lo.micros <= hi.micros,
    ensures
        x.spec_clamp(lo, hi).spec_clamp(lo, hi) == x.spec_clamp(lo, hi),
        x.within(lo, hi) ==> x.spec_clamp(lo, hi) == x,
        x.spec_clamp(lo, hi).within(lo, hi),
{
}

/// A whole number that fits survives the way into fixed point and back.
pub proof fn lemma_whole_round_trip(units: u64)
    ensures
        units * UNIT <= i64::MAX ==> Fixed::spec_from_whole(units).spec_whole() == units,
        units * UNIT > i64::MAX ==> Fixed::spec_from_whole(units).spec_whole() == i64::MAX
            / UNIT,
{
}

} // verus!
