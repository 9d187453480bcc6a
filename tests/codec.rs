use spotifypi_control_panel::codec::{
    decode_frame, interpret, parse_integer, push_decimal, read_frame, status_frame, Command,
    InboundEvent, TransportStatus,
};

fn pair(s: &str) -> (String, String) {
    decode_frame(s)
}

#[test]
fn decode_splits_event_and_value() {
    assert_eq!(pair("[volume](42)"), ("volume".to_string(), "42".to_string()));
    assert_eq!(pair("[connect](ok)"), ("connect".to_string(), "ok".to_string()));
    assert_eq!(pair("[disconnect]()"), ("disconnect".to_string(), "".to_string()));
    assert_eq!(pair("[a(b](c]d)"), ("a(b".to_string(), "c]d".to_string()));
    assert_eq!(pair("[[x](y)"), ("[x".to_string(), "y".to_string()));
}

#[test]
fn decode_rejects_other_shapes() {
    let empty = (String::new(), String::new());
    assert_eq!(pair(""), empty);
    assert_eq!(pair("volume 42"), empty);
    assert_eq!(pair("[](x)"), empty);
    assert_eq!(pair("[volume]42"), empty);
    assert_eq!(pair("[volume](42"), empty);
    assert_eq!(pair("[volume](42))"), empty);
    assert_eq!(pair("x[volume](42)"), empty);
    assert_eq!(pair("[volume] (42)"), empty);
}

#[test]
fn decode_handles_non_ascii() {
    assert_eq!(pair("[é](ü)"), ("é".to_string(), "ü".to_string()));
}

#[test]
fn decode_agrees_with_the_frame_pattern() {
    let re = regex::Regex::new(r"^\[(?P<event>[^\]]+?)\]\((?P<value>[^)]*?)\)$").unwrap();
    let samples = [
        "[volume](42)", "[connect](failed)", "[disconnect]()", "[](x)", "[a](b", "[a]](b)",
        "[a](b))", "[x(y](z]w)", "plain", "[a](b)c", "[[[a](b)", "[a] (b)",
    ];
    for s in samples {
        let expected = match re.captures(s) {
            Some(caps) => (caps["event"].to_string(), caps["value"].to_string()),
            None => (String::new(), String::new()),
        };
        assert_eq!(pair(s), expected, "frame {s}");
    }
}

#[test]
fn parse_integer_reads_decimal() {
    assert_eq!(parse_integer("42"), Some(42));
    assert_eq!(parse_integer("0"), Some(0));
    assert_eq!(parse_integer("+7"), Some(7));
    assert_eq!(parse_integer("-13"), Some(-13));
    assert_eq!(parse_integer("007"), Some(7));
    assert_eq!(parse_integer("2147483647"), Some(i32::MAX));
    assert_eq!(parse_integer("-2147483648"), Some(i32::MIN));
}

#[test]
fn parse_integer_rejects_non_integers() {
    assert_eq!(parse_integer(""), None);
    assert_eq!(parse_integer("-"), None);
    assert_eq!(parse_integer("+"), None);
    assert_eq!(parse_integer("4.5"), None);
    assert_eq!(parse_integer(" 4"), None);
    assert_eq!(parse_integer("abc"), None);
    assert_eq!(parse_integer("2147483648"), None);
    assert_eq!(parse_integer("-2147483649"), None);
    assert_eq!(parse_integer("99999999999999999999"), None);
}

#[test]
fn parse_integer_matches_std() {
    for s in ["12", "-0", "+0", "1a", "--1", "+-1", "300", "-300", "4294967296"] {
        assert_eq!(parse_integer(s), s.parse::<i32>().ok(), "text {s}");
    }
}

#[test]
fn push_decimal_spells_numbers() {
    for n in [0u32, 7, 10, 42, 100, 9487, u32::MAX] {
        let mut out = String::from(">");
        push_decimal(&mut out, n);
        assert_eq!(out, format!(">{n}"));
    }
}

#[test]
fn command_frames() {
    assert_eq!(Command::PrevTrack.frame(), "prev_track");
    assert_eq!(Command::TogglePlayPause.frame(), "toggle_play_pause");
    assert_eq!(Command::NextTrack.frame(), "next_track");
    assert_eq!(Command::ToggleShuffle.frame(), "toggle_shuffle");
    assert_eq!(Command::ToggleRepeatState.frame(), "toggle_repeat_state");
    assert_eq!(Command::Shutdown.frame(), "shutdown");
    assert_eq!(Command::Reboot.frame(), "reboot");
    assert_eq!(Command::GetVolume.frame(), "get_volume");
    assert_eq!(Command::SetVolume(77).frame(), "set_volume 77");
    assert_eq!(Command::SetVolume(0).frame(), "set_volume 0");
    assert_eq!(Command::SetVolume(100).frame(), "set_volume 100");
}

#[test]
fn interpret_recognised_events() {
    assert_eq!(interpret("connect", "ok"), InboundEvent::ConnectOk);
    assert_eq!(interpret("connect", "failed"), InboundEvent::ConnectFailed);
    assert_eq!(interpret("connect", "maybe"), InboundEvent::Unknown);
    assert_eq!(interpret("disconnect", ""), InboundEvent::Disconnected);
    assert_eq!(interpret("disconnect", "bye"), InboundEvent::Disconnected);
    assert_eq!(interpret("volume", "55"), InboundEvent::Volume(55));
    assert_eq!(interpret("volume", "loud"), InboundEvent::Unknown);
    assert_eq!(interpret("track", "1"), InboundEvent::Unknown);
    assert_eq!(interpret("", ""), InboundEvent::Unknown);
}

#[test]
fn read_frame_events() {
    assert_eq!(read_frame("[volume](42)"), InboundEvent::Volume(42));
    assert_eq!(read_frame("[volume](x)"), InboundEvent::Unknown);
    assert_eq!(read_frame("garbage"), InboundEvent::Unknown);
}

#[test]
fn status_frames_read_as_their_events() {
    assert_eq!(status_frame(TransportStatus::Opened), "[connect](ok)");
    assert_eq!(status_frame(TransportStatus::OpenFailed), "[connect](failed)");
    assert_eq!(status_frame(TransportStatus::Closed), "[disconnect]()");
    assert_eq!(read_frame(&status_frame(TransportStatus::Opened)), InboundEvent::ConnectOk);
    assert_eq!(read_frame(&status_frame(TransportStatus::OpenFailed)), InboundEvent::ConnectFailed);
    assert_eq!(read_frame(&status_frame(TransportStatus::Closed)), InboundEvent::Disconnected);
}
