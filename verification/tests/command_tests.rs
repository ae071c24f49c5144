use audio_engine::command::{str_eq, AudioCommand, CommandKind};
use audio_engine::fixed::Fixed;

const ALL: [(CommandKind, &str); 12] = [
    (CommandKind::Play, "play"),
    (CommandKind::Stop, "stop"),
    (CommandKind::SetVolume, "set_volume"),
    (CommandKind::SetTrackVolume, "set_track_volume"),
    (CommandKind::SetTrackPan, "set_track_pan"),
    (CommandKind::ToggleMute, "toggle_mute"),
    (CommandKind::ToggleSolo, "toggle_solo"),
    (CommandKind::SetBpm, "set_bpm"),
    (CommandKind::SetEqLow, "set_eq_low"),
    (CommandKind::SetEqMid, "set_eq_mid"),
    (CommandKind::SetEqHigh, "set_eq_high"),
    (CommandKind::SetLimiter, "set_limiter"),
];

#[test]
fn every_name_parses_to_its_kind() {
    for (kind, name) in ALL {
        assert_eq!(CommandKind::parse(name), kind);
        assert_eq!(kind.name(), name);
    }
}

#[test]
fn other_names_are_unknown() {
    for name in ["", "Play", "play ", " play", "set_eq", "set_eq_lo", "set_volumes", "mute", "pläy"] {
        assert_eq!(CommandKind::parse(name), CommandKind::Unknown);
    }
    assert_eq!(CommandKind::Unknown.name(), "");
}

#[test]
fn str_eq_compares_characters() {
    assert!(str_eq("", ""));
    assert!(str_eq("set_bpm", "set_bpm"));
    assert!(!str_eq("set_bpm", "set_bpn"));
    assert!(!str_eq("set", "set_bpm"));
    assert!(!str_eq("set_bpm", "set"));
    assert!(str_eq("é", "é"));
    assert!(!str_eq("é", "e"));
}

#[test]
fn kind_reads_the_name_of_a_command() {
    let cmd = AudioCommand {
        cmd_type: "toggle_mute".to_string(),
        track: Some(3),
        value: None,
        data: None,
    };
    assert_eq!(cmd.kind(), CommandKind::ToggleMute);
    let odd = AudioCommand {
        cmd_type: "reverse".to_string(),
        track: None,
        value: Some(Fixed::one()),
        data: Some(vec![1, 2, 3]),
    };
    assert_eq!(odd.kind(), CommandKind::Unknown);
}

#[test]
fn builders_fill_name_track_and_value() {
    let half = Fixed::from_micros(500_000);

    let c = AudioCommand::play();
    assert_eq!((c.cmd_type.as_str(), c.track, c.value, c.data), ("play", None, None, None));
    let c = AudioCommand::stop();
    assert_eq!((c.cmd_type.as_str(), c.track, c.value, c.data), ("stop", None, None, None));
    let c = AudioCommand::set_volume(half);
    assert_eq!((c.cmd_type.as_str(), c.track, c.value, c.data), ("set_volume", None, Some(half), None));
    let c = AudioCommand::set_track_volume(2, half);
    assert_eq!(
        (c.cmd_type.as_str(), c.track, c.value, c.data),
        ("set_track_volume", Some(2), Some(half), None)
    );
    let c = AudioCommand::set_track_pan(6, half);
    assert_eq!(
        (c.cmd_type.as_str(), c.track, c.value, c.data),
        ("set_track_pan", Some(6), Some(half), None)
    );
    let c = AudioCommand::toggle_mute(1);
    assert_eq!((c.cmd_type.as_str(), c.track, c.value, c.data), ("toggle_mute", Some(1), None, None));
    let c = AudioCommand::toggle_solo(0);
    assert_eq!((c.cmd_type.as_str(), c.track, c.value, c.data), ("toggle_solo", Some(0), None, None));
    let c = AudioCommand::set_bpm(140);
    assert_eq!(
        (c.cmd_type.as_str(), c.track, c.value, c.data),
        ("set_bpm", None, Some(Fixed::from_micros(140_000_000)), None)
    );
    let c = AudioCommand::set_eq_low(half);
    assert_eq!((c.cmd_type.as_str(), c.track, c.value, c.data), ("set_eq_low", None, Some(half), None));
    let c = AudioCommand::set_eq_mid(half);
    assert_eq!((c.cmd_type.as_str(), c.track, c.value, c.data), ("set_eq_mid", None, Some(half), None));
    let c = AudioCommand::set_eq_high(half);
    assert_eq!((c.cmd_type.as_str(), c.track, c.value, c.data), ("set_eq_high", None, Some(half), None));
    let c = AudioCommand::set_limiter(half);
    assert_eq!((c.cmd_type.as_str(), c.track, c.value, c.data), ("set_limiter", None, Some(half), None));
}

#[test]
fn new_takes_any_kind() {
    let c = AudioCommand::new(CommandKind::SetTrackPan, Some(4), Some(Fixed::minus_one()));
    assert_eq!(c.cmd_type, "set_track_pan");
    assert_eq!(c.track, Some(4));
    assert_eq!(c.value, Some(Fixed::minus_one()));
    assert_eq!(c.data, None);
    let u = AudioCommand::new(CommandKind::Unknown, None, None);
    assert_eq!(u.cmd_type, "");
    assert_eq!(u.kind(), CommandKind::Unknown);
}
