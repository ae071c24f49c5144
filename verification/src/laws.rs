//! What holds of the engine whatever commands arrive and however long it
//! runs.

use crate::command::CommandView;
use crate::engine::EngineView;
use crate::tracks::{spec_any_soloed, spec_sounds};
use crate::transport::{
    lemma_step_length_bounds,
    lemma_step_threshold,
    spec_next_step,
    spec_samples_per_step,
};
use vstd::prelude::*;

verus! {

/// The engine at start is well formed.
pub proof fn lemma_initial_wf(sample_rate: u32)
    ensures
        EngineView::initial(sample_rate).wf(),
{
}

/// No command takes a well-formed engine out of form: the roster keeps
/// its length, volumes stay within 0 and 1, pans within -1 and 1.
pub proof fn lemma_apply_preserves_wf(s: EngineView, c: CommandView)
    requires
        s.wf(),
    ensures
        s.apply(c).wf(),
{
}

/// Commands leave the clock alone: the step and the frames counted toward
/// the next one are what they were, so a change of tempo does not restart
/// the step in progress.
pub proof fn lemma_apply_keeps_clock(s: EngineView, c: CommandView)
    ensures
        s.apply(c).step == s.step,
        s.apply(c).frames == s.frames,
        s.apply(c).sample_rate == s.sample_rate,
        s.apply(c).tracks.len() == s.tracks.len(),
{
}

/// A command for a track leaves the engine exactly as it was when it
/// names no track or one outside the roster.
pub proof fn lemma_out_of_range_dropped(s: EngineView, c: CommandView)
    requires
        c.kind.addresses_track(),
        c.track matches Some(t) ==> t >= s.tracks.len(),
    ensures
        s.apply(c) == s,
{
}

/// A command that stores a number changes nothing when the number is
/// missing.
pub proof fn lemma_missing_value_dropped(s: EngineView, c: CommandView)
    requires
        c.value is None,
        !c.kind.toggles(),
        !(c.kind is Play),
        !(c.kind is Stop),
    ensures
        s.apply(c) == s,
{
}

/// A command of unknown kind changes nothing.
pub proof fn lemma_unknown_dropped(s: EngineView, c: CommandView)
    requires
        c.kind is Unknown,
    ensures
        s.apply(c) == s,
{
}

/// Every command but the two toggles gives, applied twice in a row, the
/// engine that it gives applied once.
pub proof fn lemma_apply_idempotent(s: EngineView, c: CommandView)
    requires
        !c.kind.toggles(),
    ensures
        s.apply(c).apply(c) == s.apply(c),
{
    let once = s.apply(c);
    assert(once.apply(c).tracks =~= once.tracks);
}

/// A toggle applied twice in a row gives back the engine as it was.
pub proof fn lemma_toggle_twice(s: EngineView, c: CommandView)
    requires
        c.kind.toggles(),
    ensures
        s.apply(c).apply(c) == s,
{
    assert(s.apply(c).apply(c).tracks =~= s.tracks);
}

/// A command that addresses one track leaves every other track as it was.
pub proof fn lemma_other_tracks_kept(s: EngineView, c: CommandView, other: int)
    requires
        0 <= other < s.tracks.len(),
        c.track matches Some(t) ==> t != other,
    ensures
        s.apply(c).tracks[other] == s.tracks[other],
{
}

/// Soloing a track silences every track that is not soloed: after the
/// solo flag of a track was switched on, a track sounds exactly when it is
/// soloed and not muted.
pub proof fn lemma_solo_on(s: EngineView, c: CommandView, index: int)
    requires
        c.kind is ToggleSolo,
        c.track matches Some(t) && t < s.tracks.len() && !s.tracks[t as int].soloed,
        0 <= index < s.tracks.len(),
    ensures
        spec_sounds(s.apply(c).tracks, index) <==> s.apply(c).tracks[index].soloed && !s.apply(
            c,
        ).tracks[index].muted,
{
    let after = s.apply(c).tracks;
    let t = c.track->0 as int;
    assert(after[t].soloed);
    assert(spec_any_soloed(after));
}

/// Switching off the only solo brings every track that is not muted back
/// into the mix.
pub proof fn lemma_solo_off(s: EngineView, c: CommandView, index: int)
    requires
        c.kind is ToggleSolo,
        c.track matches Some(t) && t < s.tracks.len() && s.tracks[t as int].soloed,
        forall|i: int|
            0 <= i < s.tracks.len() && i != c.track->0 ==> !(#[trigger] s.tracks[i]).soloed,
        0 <= index < s.tracks.len(),
    ensures
        spec_sounds(s.apply(c).tracks, index) <==> !s.apply(c).tracks[index].muted,
{
    let after = s.apply(c).tracks;
    let t = c.track->0 as int;
    assert forall|i: int| 0 <= i < after.len() implies !(#[trigger] after[i]).soloed by {
        if i != t {
            assert(after[i] == s.tracks[i]);
        }
    }
}

/// The commands of two batches, applied batch after batch, give what they
/// give applied as one batch: commands act in the order of their arrival.
pub proof fn lemma_apply_all_concat(s: EngineView, first: Seq<CommandView>, second: Seq<CommandView>)
    ensures
        s.apply_all(first + second) == s.apply_all(first).apply_all(second),
    decreases second.len(),
{
    if second.len() == 0 {
        assert(first + second =~= first);
    } else {
        lemma_apply_all_concat(s, first, second.drop_last());
        assert((first + second).drop_last() =~= first + second.drop_last());
        assert((first + second).last() == second.last());
    }
}

/// Any run of commands keeps a well-formed engine well formed.
pub proof fn lemma_apply_all_preserves_wf(s: EngineView, cmds: Seq<CommandView>)
    requires
        s.wf(),
    ensures
        s.apply_all(cmds).wf(),
    decreases cmds.len(),
{
    if cmds.len() > 0 {
        lemma_apply_all_preserves_wf(s, cmds.drop_last());
        lemma_apply_preserves_wf(s.apply_all(cmds.drop_last()), cmds.last());
    }
}

/// A frame keeps a well-formed engine well formed: the step stays in the
/// cycle.
pub proof fn lemma_tick_preserves_wf(s: EngineView)
    requires
        s.wf(),
    ensures
        s.tick().wf(),
        s.tick().tracks == s.tracks,
        s.tick().effects == s.effects,
        s.tick().master_volume == s.master_volume,
        s.tick().running == s.running,
        s.tick().bpm == s.bpm,
{
}

/// While the transport is stopped nothing advances, however many frames
/// go by.
pub proof fn lemma_stopped_stands_still(s: EngineView, n: nat)
    requires
        !s.running,
    ensures
        s.tick_n(n) == s,
    decreases n,
{
    if n > 0 {
        lemma_stopped_stands_still(s, (n - 1) as nat);
    }
}

/// While the transport runs at a tempo above zero, frames short of the
/// length of a step are only counted: after `k` of them the count is `k`
/// and the step has not moved.
pub proof fn lemma_frames_counted(s: EngineView, k: nat)
    requires
        s.running,
        s.frames == 0,
        s.bpm > 0,
        k < spec_samples_per_step(s.sample_rate as nat, s.bpm as nat),
    ensures
        s.tick_n(k) == (EngineView { frames: k as u64, ..s }),
    decreases k,
{
    lemma_step_length_bounds(s.sample_rate as nat, s.bpm as nat);
    if k > 0 {
        lemma_frames_counted(s, (k - 1) as nat);
        lemma_step_threshold(k, s.sample_rate as nat, s.bpm as nat);
    }
}

/// While the transport runs at a tempo above zero, the step moves on by
/// exactly one, and the count starts over, at the frame that completes
/// the length of a step, and not before.
pub proof fn lemma_step_after_threshold(s: EngineView)
    requires
        s.running,
        s.frames == 0,
        s.bpm > 0,
        s.sample_rate > 0,
    ensures
        spec_samples_per_step(s.sample_rate as nat, s.bpm as nat) > 0,
        s.tick_n(spec_samples_per_step(s.sample_rate as nat, s.bpm as nat)) == (EngineView {
            frames: 0,
            step: spec_next_step(s.step),
            ..s
        }),
        forall|k: nat|
            k < spec_samples_per_step(s.sample_rate as nat, s.bpm as nat) ==> (#[trigger] s.tick_n(
                k,
            )).step == s.step,
{
    let n = spec_samples_per_step(s.sample_rate as nat, s.bpm as nat);
    lemma_step_length_bounds(s.sample_rate as nat, s.bpm as nat);
    lemma_frames_counted(s, (n - 1) as nat);
    lemma_step_threshold(n, s.sample_rate as nat, s.bpm as nat);
    assert forall|k: nat| k < n implies (#[trigger] s.tick_n(k)).step == s.step by {
        lemma_frames_counted(s, k);
    }
}

} // verus!
