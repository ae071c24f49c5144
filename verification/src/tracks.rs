//! Per-track mixing parameters and the rule that says which tracks sound.

use crate::fixed::{Fixed, UNIT};
use vstd::prelude::*;

verus! {

/// Tracks in the roster.
pub const TRACK_COUNT: usize = 7;

/// Volume of a track at start: 0.7.
pub const DEFAULT_TRACK_VOLUME: i64 = 700_000;

/// The mixing parameters of one track.
#[derive(Clone, Copy, Debug, PartialEq, Eq, Structural)]
pub struct TrackState {
    /// From 0 (silent) to 1 (full).
    pub volume: Fixed,
    /// From -1 (left) to 1 (right).
    pub pan: Fixed,
    pub muted: bool,
    pub soloed: bool,
}

impl TrackState {
    /// A track as it is at start: volume 0.7, centred, neither muted nor
    /// soloed.
    pub open spec fn spec_initial() -> TrackState {
        TrackState {
            volume: Fixed { micros: DEFAULT_TRACK_VOLUME },
            pan: Fixed { micros: 0 },
            muted: false,
            soloed: false,
        }
    }

    /// Volume and pan lie in their ranges.
    pub open spec fn in_range(self) -> bool {
        &&& 0 <= self.volume.micros <= UNIT
        &&& -UNIT <= self.pan.micros <= UNIT
    }

    /// Whether the track sounds: a muted track never does; while any track
    /// of the roster is soloed, only soloed tracks do.
    pub open spec fn spec_audible(self, any_soloed: bool) -> bool {
        !self.muted && (!any_soloed || self.soloed)
    }

    pub fn initial() -> (t: TrackState)
        ensures
            t == TrackState::spec_initial(),
            t.in_range(),
    {
        TrackState {
            volume: Fixed { micros: DEFAULT_TRACK_VOLUME },
            pan: Fixed { micros: 0 },
            muted: false,
            soloed: false,
        }
    }

    /// Whether the track sounds, given whether any track of its roster is
    /// soloed.
    pub fn audible(&self, any_soloed: bool) -> (a: bool)
        ensures
            a == self.spec_audible(any_soloed),
    {
        !self.muted && (!any_soloed || self.soloed)
    }
}

/// True when some track of the roster is soloed.
pub open spec fn spec_any_soloed(tracks: Seq<TrackState>) -> bool {
    exists|i: int| 0 <= i < tracks.len() && (#[trigger] tracks[i]).soloed
}

/// True when the track at `index` sounds in the mix of `tracks`.
pub open spec fn spec_sounds(tracks: Seq<TrackState>, index: int) -> bool {
    0 <= index < tracks.len() && tracks[index].spec_audible(spec_any_soloed(tracks))
}

/// True when some track of the roster is soloed.
pub fn any_soloed(tracks: &Vec<TrackState>) -> (any: bool)
    ensures
        any == spec_any_soloed(tracks@),
{
    let mut i: usize = 0;
    while i < tracks.len()
        invariant
            i <= tracks.len(),
            forall|j: int| 0 <= j < i ==> !(#[trigger] tracks@[j]).soloed,
        decreases tracks.len() - i,
    {
        if tracks[i].soloed {
            return true;
        }
        i += 1;
    }
    false
}

/// While a track is soloed, exactly the soloed tracks that are not muted
/// sound: a track that is not soloed adds nothing to the mix.
pub proof fn lemma_solo_silences_others(tracks: Seq<TrackState>, index: int)
    requires
        spec_any_soloed(tracks),
        0 <= index < tracks.len(),
    ensures
        spec_sounds(tracks, index) <==> tracks[index].soloed && !tracks[index].muted,
{
}

/// While no track is soloed, exactly the tracks that are not muted sound.
pub proof fn lemma_no_solo_restores_all(tracks: Seq<TrackState>, index: int)
    requires
        forall|i: int| 0 <= i < tracks.len() ==> !(#[trigger] tracks[i]).soloed,
        0 <= index < tracks.len(),
    ensures
        spec_sounds(tracks, index) <==> !tracks[index].muted,
{
}

/// A muted track does not sound, soloed or not.
pub proof fn lemma_mute_wins(tracks: Seq<TrackState>, index: int)
    requires
        0 <= index < tracks.len(),
        tracks[index].muted,
    ensures
        !spec_sounds(tracks, index),
{
}

} // verus!
