//! Commands: what the control surface asks of the audio callback.

use crate::fixed::Fixed;
use vstd::prelude::*;
use vstd::string::StringSliceAdditionalSpecFns;

verus! {

/// The operations that a command can name.
#[derive(Clone, Copy, Debug, PartialEq, Eq, Structural)]
pub enum CommandKind {
    Play,
    Stop,
    SetVolume,
    SetTrackVolume,
    SetTrackPan,
    ToggleMute,
    ToggleSolo,
    SetBpm,
    SetEqLow,
    SetEqMid,
    SetEqHigh,
    SetLimiter,
    /// Any name that is not one of the above; such a command does nothing.
    Unknown,
}

/// True when the two strings hold the same characters.
pub fn str_eq(a: &str, b: &str) -> (same: bool)
    ensures
        same == (a@ == b@),
{
    let x = a.as_bytes();
    let y = b.as_bytes();
    proof {
        vstd::utf8::encode_utf8_decode_utf8(a@);
        vstd::utf8::encode_utf8_decode_utf8(b@);
    }
    if x.len() != y.len() {
        return false;
    }
    let mut i: usize = 0;
    while i < x.len()
        invariant
            i <= x.len(),
            x.len() == y.len(),
            forall|j: int| 0 <= j < i ==> x@[j] == y@[j],
            x@ == a.spec_bytes(),
            y@ == b.spec_bytes(),
        decreases x.len() - i,
    {
        if x[i] != y[i] {
            return false;
        }
        i += 1;
    }
    assert(x@ =~= y@);
    true
}

impl CommandKind {
    /// The name under which the operation travels; the empty string for
    /// `Unknown`.
    pub open spec fn spec_name(self) -> Seq<char> {
        match self {
            CommandKind::Play => "play"@,
            CommandKind::Stop => "stop"@,
            CommandKind::SetVolume => "set_volume"@,
            CommandKind::SetTrackVolume => "set_track_volume"@,
            CommandKind::SetTrackPan => "set_track_pan"@,
            CommandKind::ToggleMute => "toggle_mute"@,
            CommandKind::ToggleSolo => "toggle_solo"@,
            CommandKind::SetBpm => "set_bpm"@,
            CommandKind::SetEqLow => "set_eq_low"@,
            CommandKind::SetEqMid => "set_eq_mid"@,
            CommandKind::SetEqHigh => "set_eq_high"@,
            CommandKind::SetLimiter => "set_limiter"@,
            CommandKind::Unknown => ""@,
        }
    }

    /// The operation that `name` stands for.
    pub open spec fn spec_parse(name: Seq<char>) -> CommandKind {
        if name == "play"@ {
            CommandKind::Play
        } else if name == "stop"@ {
            CommandKind::Stop
        } else if name == "set_volume"@ {
            CommandKind::SetVolume
        } else if name == "set_track_volume"@ {
            CommandKind::SetTrackVolume
        } else if name == "set_track_pan"@ {
            CommandKind::SetTrackPan
        } else if name == "toggle_mute"@ {
            CommandKind::ToggleMute
        } else if name == "toggle_solo"@ {
            CommandKind::ToggleSolo
        } else if name == "set_bpm"@ {
            CommandKind::SetBpm
        } else if name == "set_eq_low"@ {
            CommandKind::SetEqLow
        } else if name == "set_eq_mid"@ {
            CommandKind::SetEqMid
        } else if name == "set_eq_high"@ {
            CommandKind::SetEqHigh
        } else if name == "set_limiter"@ {
            CommandKind::SetLimiter
        } else {
            CommandKind::Unknown
        }
    }

    /// True for the operations that act on one track.
    pub open spec fn addresses_track(self) -> bool {
        self is SetTrackVolume || self is SetTrackPan || self is ToggleMute || self is ToggleSolo
    }

    /// True for the operations that flip a flag rather than store a value.
    pub open spec fn toggles(self) -> bool {
        self is ToggleMute || self is ToggleSolo
    }

    /// Reads an operation from its name. Names are matched exactly; any
    /// other string gives `Unknown`.
    pub fn parse(name: &str) -> (kind: CommandKind)
        ensures
            kind == CommandKind::spec_parse(name@),
    {
        if str_eq(name, "play") {
            CommandKind::Play
        } else if str_eq(name, "stop") {
            CommandKind::Stop
        } else if str_eq(name, "set_volume") {
            CommandKind::SetVolume
        } else if str_eq(name, "set_track_volume") {
            CommandKind::SetTrackVolume
        } else if str_eq(name, "set_track_pan") {
            CommandKind::SetTrackPan
        } else if str_eq(name, "toggle_mute") {
            CommandKind::ToggleMute
        } else if str_eq(name, "toggle_solo") {
            CommandKind::ToggleSolo
        } else if str_eq(name, "set_bpm") {
            CommandKind::SetBpm
        } else if str_eq(name, "set_eq_low") {
            CommandKind::SetEqLow
        } else if str_eq(name, "set_eq_mid") {
            CommandKind::SetEqMid
        } else if str_eq(name, "set_eq_high") {
            CommandKind::SetEqHigh
        } else if str_eq(name, "set_limiter") {
            CommandKind::SetLimiter
        } else {
            CommandKind::Unknown
        }
    }

    /// The name under which the operation travels.
    pub fn name(self) -> (name: &'static str)
        ensures
            name@ == self.spec_name(),
    {
        match self {
            CommandKind::Play => "play",
            CommandKind::Stop => "stop",
            CommandKind::SetVolume => "set_volume",
            CommandKind::SetTrackVolume => "set_track_volume",
            CommandKind::SetTrackPan => "set_track_pan",
            CommandKind::ToggleMute => "toggle_mute",
            CommandKind::ToggleSolo => "toggle_solo",
            CommandKind::SetBpm => "set_bpm",
            CommandKind::SetEqLow => "set_eq_low",
            CommandKind::SetEqMid => "set_eq_mid",
            CommandKind::SetEqHigh => "set_eq_high",
            CommandKind::SetLimiter => "set_limiter",
            CommandKind::Unknown => "",
        }
    }
}

/// The names differ from one another, in length or in some character.
proof fn lemma_names_differ()
    ensures
        "play"@.len() == 4 && "play"@[0] == 'p',
        "stop"@.len() == 4 && "stop"@[0] == 's',
        "set_volume"@.len() == 10 && "set_volume"@[4] == 'v',
        "set_track_volume"@.len() == 16,
        "set_track_pan"@.len() == 13,
        "toggle_mute"@.len() == 11 && "toggle_mute"@[0] == 't' && "toggle_mute"@[7] == 'm',
        "toggle_solo"@.len() == 11 && "toggle_solo"@[0] == 't' && "toggle_solo"@[7] == 's',
        "set_bpm"@.len() == 7,
        "set_eq_low"@.len() == 10 && "set_eq_low"@[4] == 'e' && "set_eq_low"@[7] == 'l',
        "set_eq_mid"@.len() == 10 && "set_eq_mid"@[4] == 'e' && "set_eq_mid"@[7] == 'm',
        "set_eq_high"@.len() == 11 && "set_eq_high"@[0] == 's' && "set_eq_high"@[4] == 'e',
        "set_limiter"@.len() == 11 && "set_limiter"@[0] == 's' && "set_limiter"@[4] == 'l',
        ""@.len() == 0,
{
    reveal_strlit("play");
    reveal_strlit("stop");
    reveal_strlit("set_volume");
    reveal_strlit("set_track_volume");
    reveal_strlit("set_track_pan");
    reveal_strlit("toggle_mute");
    reveal_strlit("toggle_solo");
    reveal_strlit("set_bpm");
    reveal_strlit("set_eq_low");
    reveal_strlit("set_eq_mid");
    reveal_strlit("set_eq_high");
    reveal_strlit("set_limiter");
    reveal_strlit("");
}

/// Every operation is read back from its own name.
pub proof fn lemma_parse_name(kind: CommandKind)
    ensures
        CommandKind::spec_parse(kind.spec_name()) == kind,
{
    lemma_names_differ();
}

/// A command: the name of an operation, the track it addresses, a number,
/// and bytes that no operation reads yet.
#[derive(Clone, Debug)]
pub struct AudioCommand {
    pub cmd_type: String,
    pub track: Option<usize>,
    pub value: Option<Fixed>,
    pub data: Option<Vec<u8>>,
}

/// What a command means: its operation, its track and its number.
pub struct CommandView {
    pub kind: CommandKind,
    pub track: Option<usize>,
    pub value: Option<Fixed>,
}

impl View for AudioCommand {
    type V = CommandView;

    open spec fn view(&self) -> CommandView {
        CommandView {
            kind: CommandKind::spec_parse(self.cmd_type@),
            track: self.track,
            value: self.value,
        }
    }
}

impl AudioCommand {
    /// The operation that the command names.
    pub fn kind(&self) -> (kind: CommandKind)
        ensures
            kind == self@.kind,
    {
        CommandKind::parse(self.cmd_type.as_str())
    }

    /// A command for `kind` with the given track and number.
    pub fn new(kind: CommandKind, track: Option<usize>, value: Option<Fixed>) -> (cmd:
        AudioCommand)
        ensures
            cmd.cmd_type@ == kind.spec_name(),
            cmd@ == (CommandView { kind, track, value }),
            cmd.data is None,
    {
        proof {
            lemma_parse_name(kind);
        }
        AudioCommand { cmd_type: kind.name().to_owned(), track, value, data: None }
    }

    pub fn play() -> (cmd: AudioCommand)
        ensures
            cmd@ == (CommandView { kind: CommandKind::Play, track: None, value: None }),
            cmd.cmd_type@ == CommandKind::Play.spec_name(),
            cmd.data is None,
    {
        AudioCommand::new(CommandKind::Play, None, None)
    }

    pub fn stop() -> (cmd: AudioCommand)
        ensures
            cmd@ == (CommandView { kind: CommandKind::Stop, track: None, value: None }),
            cmd.cmd_type@ == CommandKind::Stop.spec_name(),
            cmd.data is None,
    {
        AudioCommand::new(CommandKind::Stop, None, None)
    }

    pub fn set_volume(value: Fixed) -> (cmd: AudioCommand)
        ensures
            cmd@ == (CommandView { kind: CommandKind::SetVolume, track: None, value: Some(value) }),
            cmd.cmd_type@ == CommandKind::SetVolume.spec_name(),
            cmd.data is None,
    {
        AudioCommand::new(CommandKind::SetVolume, None, Some(value))
    }

    pub fn set_track_volume(track: usize, value: Fixed) -> (cmd: AudioCommand)
        ensures
            cmd@ == (CommandView {
                kind: CommandKind::SetTrackVolume,
                track: Some(track),
                value: Some(value),
            }),
            cmd.cmd_type@ == CommandKind::SetTrackVolume.spec_name(),
            cmd.data is None,
    {
        AudioCommand::new(CommandKind::SetTrackVolume, Some(track), Some(value))
    }

    pub fn set_track_pan(track: usize, value: Fixed) -> (cmd: AudioCommand)
        ensures
            cmd@ == (CommandView {
                kind: CommandKind::SetTrackPan,
                track: Some(track),
                value: Some(value),
            }),
            cmd.cmd_type@ == CommandKind::SetTrackPan.spec_name(),
            cmd.data is None,
    {
        AudioCommand::new(CommandKind::SetTrackPan, Some(track), Some(value))
    }

    pub fn toggle_mute(track: usize) -> (cmd: AudioCommand)
        ensures
            cmd@ == (CommandView {
                kind: CommandKind::ToggleMute,
                track: Some(track),
                value: None,
            }),
            cmd.cmd_type@ == CommandKind::ToggleMute.spec_name(),
            cmd.data is None,
    {
        AudioCommand::new(CommandKind::ToggleMute, Some(track), None)
    }

    pub fn toggle_solo(track: usize) -> (cmd: AudioCommand)
        ensures
            cmd@ == (CommandView {
                kind: CommandKind::ToggleSolo,
                track: Some(track),
                value: None,
            }),
            cmd.cmd_type@ == CommandKind::ToggleSolo.spec_name(),
            cmd.data is None,
    {
        AudioCommand::new(CommandKind::ToggleSolo, Some(track), None)
    }

    /// The tempo travels as a whole number of beats per minute; one too
    /// large for fixed point travels as the largest number there is.
    pub fn set_bpm(bpm: u64) -> (cmd: AudioCommand)
        ensures
            cmd@ == (CommandView {
                kind: CommandKind::SetBpm,
                track: None,
                value: Some(Fixed::spec_from_whole(bpm)),
            }),
            cmd.cmd_type@ == CommandKind::SetBpm.spec_name(),
            cmd.data is None,
    {
        AudioCommand::new(CommandKind::SetBpm, None, Some(Fixed::from_whole(bpm)))
    }

    pub fn set_eq_low(value: Fixed) -> (cmd: AudioCommand)
        ensures
            cmd@ == (CommandView { kind: CommandKind::SetEqLow, track: None, value: Some(value) }),
            cmd.cmd_type@ == CommandKind::SetEqLow.spec_name(),
            cmd.data is None,
    {
        AudioCommand::new(CommandKind::SetEqLow, None, Some(value))
    }

    pub fn set_eq_mid(value: Fixed) -> (cmd: AudioCommand)
        ensures
            cmd@ == (CommandView { kind: CommandKind::SetEqMid, track: None, value: Some(value) }),
            cmd.cmd_type@ == CommandKind::SetEqMid.spec_name(),
            cmd.data is None,
    {
        AudioCommand::new(CommandKind::SetEqMid, None, Some(value))
    }

    pub fn set_eq_high(value: Fixed) -> (cmd: AudioCommand)
        ensures
            cmd@ == (CommandView { kind: CommandKind::SetEqHigh, track: None, value: Some(value) }),
            cmd.cmd_type@ == CommandKind::SetEqHigh.spec_name(),
            cmd.data is None,
    {
        AudioCommand::new(CommandKind::SetEqHigh, None, Some(value))
    }

    pub fn set_limiter(value: Fixed) -> (cmd: AudioCommand)
        ensures
            cmd@ == (CommandView {
                kind: CommandKind::SetLimiter,
                track: None,
                value: Some(value),
            }),
            cmd.cmd_type@ == CommandKind::SetLimiter.spec_name(),
            cmd.data is None,
    {
        AudioCommand::new(CommandKind::SetLimiter, None, Some(value))
    }
}

} // verus!
