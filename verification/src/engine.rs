//! The engine that the audio callback drives: it takes commands from the
//! queue, keeps the track and master parameters and the transport, and
//! counts frames into pattern steps.

use crate::command::{AudioCommand, CommandKind, CommandView};
use crate::effects::{MasterEffects, DEFAULT_MASTER_VOLUME};
use crate::fixed::Fixed;
use crate::queue::{offer, poll, Refused, COMMAND_CAPACITY};
use crate::tracks::{any_soloed, spec_any_soloed, spec_sounds, TrackState, TRACK_COUNT};
use crate::transport::{
    is_step_due,
    spec_next_step,
    step_due,
    AudioState,
    CYCLE_LENGTH,
    DEFAULT_BPM,
};
use vstd::prelude::*;

verus! {

/// The state of the engine.
pub struct EngineView {
    /// Frames per second of the output device.
    pub sample_rate: u32,
    /// The roster, by position.
    pub tracks: Seq<TrackState>,
    pub effects: MasterEffects,
    pub master_volume: Fixed,
    /// Whether the transport is running.
    pub running: bool,
    /// Position in the pattern cycle.
    pub step: u64,
    /// Tempo in beats per minute.
    pub bpm: u64,
    /// Frames rendered since the last step.
    pub frames: u64,
}

impl EngineView {
    /// What always holds of an engine: the roster is complete, volumes and
    /// pans lie in their ranges, and the step lies in the cycle.
    pub open spec fn wf(self) -> bool {
        &&& self.tracks.len() == TRACK_COUNT
        &&& forall|i: int| 0 <= i < self.tracks.len() ==> (#[trigger] self.tracks[i]).in_range()
        &&& self.master_volume.within(Fixed::spec_zero(), Fixed::spec_one())
        &&& self.step < CYCLE_LENGTH
    }

    /// The engine at start: stopped at step zero, every track at its
    /// initial state, master volume 0.8, master effects at their initial
    /// values.
    pub open spec fn initial(sample_rate: u32) -> EngineView {
        EngineView {
            sample_rate,
            tracks: Seq::new(TRACK_COUNT as nat, |i: int| TrackState::spec_initial()),
            effects: MasterEffects::spec_initial(),
            master_volume: Fixed { micros: DEFAULT_MASTER_VOLUME },
            running: false,
            step: 0,
            bpm: DEFAULT_BPM,
            frames: 0,
        }
    }

    /// The engine with the track at `index` replaced.
    pub open spec fn with_track(self, index: int, track: TrackState) -> EngineView {
        EngineView { tracks: self.tracks.update(index, track), ..self }
    }

    /// The engine with its master effects replaced.
    pub open spec fn with_effects(self, effects: MasterEffects) -> EngineView {
        EngineView { effects, ..self }
    }

    /// The engine after one command. A command without the number or the
    /// track that its operation needs, one that addresses a track outside
    /// the roster, and one of unknown kind leave the engine as it is.
    pub open spec fn apply(self, c: CommandView) -> EngineView {
        match c.kind {
            CommandKind::Play => EngineView { running: true, ..self },
            CommandKind::Stop => EngineView { running: false, ..self },
            CommandKind::SetVolume => match c.value {
                Some(v) => EngineView {
                    master_volume: v.spec_clamp(Fixed::spec_zero(), Fixed::spec_one()),
                    ..self
                },
                None => self,
            },
            CommandKind::SetTrackVolume => match (c.track, c.value) {
                (Some(t), Some(v)) if t < self.tracks.len() => self.with_track(
                    t as int,
                    TrackState {
                        volume: v.spec_clamp(Fixed::spec_zero(), Fixed::spec_one()),
                        ..self.tracks[t as int]
                    },
                ),
                _ => self,
            },
            CommandKind::SetTrackPan => match (c.track, c.value) {
                (Some(t), Some(v)) if t < self.tracks.len() => self.with_track(
                    t as int,
                    TrackState {
                        pan: v.spec_clamp(Fixed::spec_minus_one(), Fixed::spec_one()),
                        ..self.tracks[t as int]
                    },
                ),
                _ => self,
            },
            CommandKind::ToggleMute => match c.track {
                Some(t) if t < self.tracks.len() => self.with_track(
                    t as int,
                    TrackState { muted: !self.tracks[t as int].muted, ..self.tracks[t as int] },
                ),
                _ => self,
            },
            CommandKind::ToggleSolo => match c.track {
                Some(t) if t < self.tracks.len() => self.with_track(
                    t as int,
                    TrackState { soloed: !self.tracks[t as int].soloed, ..self.tracks[t as int] },
                ),
                _ => self,
            },
            CommandKind::SetBpm => match c.value {
                Some(v) => EngineView { bpm: v.spec_whole(), ..self },
                None => self,
            },
            CommandKind::SetEqLow => match c.value {
                Some(v) => self.with_effects(MasterEffects { eq_low: v, ..self.effects }),
                None => self,
            },
            CommandKind::SetEqMid => match c.value {
                Some(v) => self.with_effects(MasterEffects { eq_mid: v, ..self.effects }),
                None => self,
            },
            CommandKind::SetEqHigh => match c.value {
                Some(v) => self.with_effects(MasterEffects { eq_high: v, ..self.effects }),
                None => self,
            },
            CommandKind::SetLimiter => match c.value {
                Some(v) => self.with_effects(
                    MasterEffects { limiter_threshold: v, ..self.effects },
                ),
                None => self,
            },
            CommandKind::Unknown => self,
        }
    }

    /// The engine after the commands of `cmds`, first to last.
    pub open spec fn apply_all(self, cmds: Seq<CommandView>) -> EngineView
        decreases cmds.len(),
    {
        if cmds.len() == 0 {
            self
        } else {
            self.apply_all(cmds.drop_last()).apply(cmds.last())
        }
    }

    /// The frame count after one more frame. It stops at the largest
    /// number, far beyond the length of any step.
    pub open spec fn next_frames(self) -> u64 {
        if self.frames < u64::MAX {
            (self.frames + 1) as u64
        } else {
            self.frames
        }
    }

    /// Whether the next frame completes a step.
    pub open spec fn stepped(self) -> bool {
        self.running && step_due(self.next_frames() as nat, self.sample_rate as nat, self.bpm as nat)
    }

    /// The engine after one frame. While stopped nothing advances; while
    /// running the frame is counted, and where that completes a step the
    /// count starts over and the step moves on in the cycle.
    pub open spec fn tick(self) -> EngineView {
        if !self.running {
            self
        } else if self.stepped() {
            EngineView { frames: 0, step: spec_next_step(self.step), ..self }
        } else {
            EngineView { frames: self.next_frames(), ..self }
        }
    }

    /// The engine after `n` frames.
    pub open spec fn tick_n(self, n: nat) -> EngineView
        decreases n,
    {
        if n == 0 {
            self
        } else {
            self.tick_n((n - 1) as nat).tick()
        }
    }

    /// The snapshot that the control surface gets of the engine.
    pub open spec fn snapshot(self) -> AudioState {
        AudioState::spec_of(self.running, self.step, self.bpm)
    }
}

/// Replaces the track at `index`.
fn store_track(tracks: &mut Vec<TrackState>, index: usize, track: TrackState)
    requires
        index < old(tracks).len(),
    ensures
        final(tracks)@ == old(tracks)@.update(index as int, track),
    no_unwind
{
    tracks[index] = track;
}

/// The engine as it runs. Its state is read through `view`.
pub struct AudioEngine {
    sample_rate: u32,
    tracks: Vec<TrackState>,
    effects: MasterEffects,
    master_volume: Fixed,
    running: bool,
    step: u64,
    bpm: u64,
    frames: u64,
}

impl View for AudioEngine {
    type V = EngineView;

    closed spec fn view(&self) -> EngineView {
        EngineView {
            sample_rate: self.sample_rate,
            tracks: self.tracks@,
            effects: self.effects,
            master_volume: self.master_volume,
            running: self.running,
            step: self.step,
            bpm: self.bpm,
            frames: self.frames,
        }
    }
}

impl AudioEngine {
    #[verifier::type_invariant]
    spec fn well_formed(self) -> bool {
        self@.wf()
    }

    /// An engine at start, for a device that runs at `sample_rate`.
    pub fn new(sample_rate: u32) -> (engine: AudioEngine)
        ensures
            engine@ == EngineView::initial(sample_rate),
            engine@.wf(),
    {
        let mut tracks: Vec<TrackState> = Vec::new();
        let mut i: usize = 0;
        while i < TRACK_COUNT
            invariant
                i <= TRACK_COUNT,
                tracks.len() == i,
                forall|j: int| 0 <= j < i ==> tracks@[j] == TrackState::spec_initial(),
            decreases TRACK_COUNT - i,
        {
            tracks.push(TrackState::initial());
            i += 1;
        }
        assert(tracks@ =~= Seq::new(TRACK_COUNT as nat, |i: int| TrackState::spec_initial()));
        AudioEngine {
            sample_rate,
            tracks,
            effects: MasterEffects::initial(),
            master_volume: Fixed { micros: DEFAULT_MASTER_VOLUME },
            running: false,
            step: 0,
            bpm: DEFAULT_BPM,
            frames: 0,
        }
    }

    pub fn sample_rate(&self) -> (r: u32)
        ensures
            r == self@.sample_rate,
    {
        self.sample_rate
    }

    pub fn is_running(&self) -> (r: bool)
        ensures
            r == self@.running,
    {
        self.running
    }

    /// The position in the pattern cycle.
    pub fn current_step(&self) -> (r: usize)
        ensures
            r == self@.step,
            r < CYCLE_LENGTH,
    {
        proof {
            use_type_invariant(self);
        }
        self.step as usize
    }

    pub fn bpm(&self) -> (r: u64)
        ensures
            r == self@.bpm,
    {
        self.bpm
    }

    pub fn master_volume(&self) -> (r: Fixed)
        ensures
            r == self@.master_volume,
            r.within(Fixed::spec_zero(), Fixed::spec_one()),
    {
        proof {
            use_type_invariant(self);
        }
        self.master_volume
    }

    /// The master effect parameters, as commands left them.
    pub fn effects(&self) -> (r: MasterEffects)
        ensures
            r == self@.effects,
    {
        self.effects
    }

    pub fn track_count(&self) -> (r: usize)
        ensures
            r == self@.tracks.len(),
            r == TRACK_COUNT,
    {
        proof {
            use_type_invariant(self);
        }
        self.tracks.len()
    }

    /// The state of the track at `index`; none outside the roster.
    pub fn track(&self, index: usize) -> (r: Option<TrackState>)
        ensures
            index < self@.tracks.len() ==> r == Some(self@.tracks[index as int]),
            index >= self@.tracks.len() ==> r is None,
            r matches Some(t) ==> t.in_range(),
    {
        proof {
            use_type_invariant(self);
        }
        if index < self.tracks.len() {
            Some(self.tracks[index])
        } else {
            None
        }
    }

    /// True when some track is soloed.
    pub fn any_soloed(&self) -> (r: bool)
        ensures
            r == spec_any_soloed(self@.tracks),
    {
        any_soloed(&self.tracks)
    }

    /// True when the track at `index` sounds in the mix: it is in the
    /// roster, it is not muted, and it is soloed if any track is.
    pub fn sounds(&self, index: usize) -> (r: bool)
        ensures
            r == spec_sounds(self@.tracks, index as int),
    {
        if index < self.tracks.len() {
            let solo = any_soloed(&self.tracks);
            self.tracks[index].audible(solo)
        } else {
            false
        }
    }

    /// The snapshot that the control surface gets.
    pub fn snapshot(&self) -> (s: AudioState)
        ensures
            s == self@.snapshot(),
            s.current_step == self@.step,
    {
        proof {
            use_type_invariant(self);
        }
        AudioState::of(self.running, self.step, self.bpm)
    }

    /// Applies one command. No command fails: one that cannot be carried
    /// out is dropped and the engine stays as it is.
    pub fn apply(&mut self, cmd: &AudioCommand)
        ensures
            final(self)@ == old(self)@.apply(cmd@),
            final(self)@.wf(),
    {
        proof {
            use_type_invariant(&*self);
        }
        let count: usize = self.tracks.len();
        match cmd.kind() {
            CommandKind::Play => {
                self.running = true;
            },
            CommandKind::Stop => {
                self.running = false;
            },
            CommandKind::SetVolume => {
                if let Some(v) = cmd.value {
                    self.master_volume = v.clamp(Fixed::zero(), Fixed::one());
                }
            },
            CommandKind::SetTrackVolume => {
                if let Some(t) = cmd.track {
                    if let Some(v) = cmd.value {
                        if t < count {
                            let before: TrackState = self.tracks[t];
                            store_track(&mut self.tracks, t, TrackState {
                                volume: v.clamp(Fixed::zero(), Fixed::one()),
                                pan: before.pan,
                                muted: before.muted,
                                soloed: before.soloed,
                            });
                        }
                    }
                }
            },
            CommandKind::SetTrackPan => {
                if let Some(t) = cmd.track {
                    if let Some(v) = cmd.value {
                        if t < count {
                            let before: TrackState = self.tracks[t];
                            store_track(&mut self.tracks, t, TrackState {
                                volume: before.volume,
                                pan: v.clamp(Fixed::minus_one(), Fixed::one()),
                                muted: before.muted,
                                soloed: before.soloed,
                            });
                        }
                    }
                }
            },
            CommandKind::ToggleMute => {
                if let Some(t) = cmd.track {
                    if t < count {
                        let before: TrackState = self.tracks[t];
                        store_track(&mut self.tracks, t, TrackState {
                            volume: before.volume,
                            pan: before.pan,
                            muted: !before.muted,
                            soloed: before.soloed,
                        });
                    }
                }
            },
            CommandKind::ToggleSolo => {
                if let Some(t) = cmd.track {
                    if t < count {
                        let before: TrackState = self.tracks[t];
                        store_track(&mut self.tracks, t, TrackState {
                            volume: before.volume,
                            pan: before.pan,
                            muted: before.muted,
                            soloed: !before.soloed,
                        });
                    }
                }
            },
            CommandKind::SetBpm => {
                if let Some(v) = cmd.value {
                    self.bpm = v.whole();
                }
            },
            CommandKind::SetEqLow => {
                if let Some(v) = cmd.value {
                    self.effects.eq_low = v;
                }
            },
            CommandKind::SetEqMid => {
                if let Some(v) = cmd.value {
                    self.effects.eq_mid = v;
                }
            },
            CommandKind::SetEqHigh => {
                if let Some(v) = cmd.value {
                    self.effects.eq_high = v;
                }
            },
            CommandKind::SetLimiter => {
                if let Some(v) = cmd.value {
                    self.effects.limiter_threshold = v;
                }
            },
            CommandKind::Unknown => {},
        }
        proof {
            use_type_invariant(&*self);
            assert(self@.tracks =~= old(self)@.apply(cmd@).tracks);
        }
    }

    /// Takes the commands that wait in the queue, in order, and applies
    /// each; it never waits. It stops when the queue is empty, or after as
    /// many commands as the queue has slots, so that one call does a
    /// bounded amount of work. Returns the number of commands applied.
    pub fn drain(&mut self, rx: &crossbeam_channel::Receiver<AudioCommand>) -> (applied: usize)
        ensures
            applied <= COMMAND_CAPACITY,
            exists|cmds: Seq<CommandView>|
                cmds.len() == applied && final(self)@ == old(self)@.apply_all(cmds),
            final(self)@.wf(),
    {
        proof {
            use_type_invariant(&*self);
        }
        let ghost mut done: Seq<CommandView> = Seq::empty();
        let mut applied: usize = 0;
        while applied < COMMAND_CAPACITY
            invariant
                applied <= COMMAND_CAPACITY,
                done.len() == applied,
                self@ == old(self)@.apply_all(done),
                self@.wf(),
            decreases COMMAND_CAPACITY - applied,
        {
            match poll(rx) {
                Some(cmd) => {
                    self.apply(&cmd);
                    proof {
                        let ghost longer = done.push(cmd@);
                        assert(longer.drop_last() =~= done);
                        done = longer;
                    }
                    applied += 1;
                },
                None => {
                    break ;
                },
            }
        }
        applied
    }

    /// Counts one frame. Returns the new snapshot where the frame
    /// completed a step.
    pub fn tick(&mut self) -> (published: Option<AudioState>)
        ensures
            final(self)@ == old(self)@.tick(),
            final(self)@.wf(),
            published == (if old(self)@.stepped() {
                Some(old(self)@.tick().snapshot())
            } else {
                None
            }),
    {
        proof {
            use_type_invariant(&*self);
        }
        if !self.running {
            return None;
        }
        let frames: u64 = if self.frames < u64::MAX {
            self.frames + 1
        } else {
            self.frames
        };
        if is_step_due(frames, self.sample_rate, self.bpm) {
            self.frames = 0;
            self.step = (self.step + 1) % CYCLE_LENGTH;
            Some(AudioState::of(self.running, self.step, self.bpm))
        } else {
            self.frames = frames;
            None
        }
    }

    /// Counts one frame and, where it completed a step, offers the new
    /// snapshot to the control surface. The offer never waits; a snapshot
    /// that finds the channel full is dropped. Returns whether a step was
    /// completed.
    pub fn advance(&mut self, tx: &crossbeam_channel::Sender<AudioState>) -> (stepped: bool)
        ensures
            final(self)@ == old(self)@.tick(),
            final(self)@.wf(),
            stepped == old(self)@.stepped(),
    {
        match self.tick() {
            Some(state) => {
                let _ = offer(tx, state);
                true
            },
            None => false,
        }
    }
}

/// Offers a command to the queue without waiting. The queue either takes
/// the command or refuses it: a full queue and a queue that has lost the
/// audio callback each give their own reason, and the command comes back
/// to the caller as it was, to be offered again or dropped.
pub fn submit(tx: &crossbeam_channel::Sender<AudioCommand>, cmd: AudioCommand) -> (r: Result<
    (),
    Refused<AudioCommand>,
>)
    ensures
        r matches Err(refused) ==> refused.item == cmd,
{
    offer(tx, cmd)
}

} // verus!
