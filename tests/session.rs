use spotifypi_control_panel::codec::{status_frame, Command, TransportStatus};
use spotifypi_control_panel::session::{Alert, Button, ConnectOutcome, Controller, Phase};
use spotifypi_control_panel::view::{default_address, ConnectLabel, Control};

const BUTTONS: [Button; 7] = [
    Button::PrevTrack,
    Button::PlayPause,
    Button::NextTrack,
    Button::ToggleShuffle,
    Button::ToggleRepeatState,
    Button::Shutdown,
    Button::Reboot,
];

const CONTROLS: [Control; 10] = [
    Control::PrevTrack,
    Control::PlayPause,
    Control::NextTrack,
    Control::ToggleShuffle,
    Control::ToggleRepeatState,
    Control::PowerMenu,
    Control::PowerPopover,
    Control::Shutdown,
    Control::Reboot,
    Control::VolumeLabel,
];

/// What the panel does around the controller: a spinner write that moves the value fires
/// one change event.
fn inbound(c: &mut Controller, frame: &str, sent: &mut Vec<String>) -> Option<Alert> {
    let before = c.view.spinner_value;
    let r = c.on_frame(frame);
    if let Some(cmd) = r.send {
        sent.push(cmd.frame());
    }
    if c.view.spinner_value != before {
        let v = c.view.spinner_value;
        if let Some(cmd) = c.on_volume_changed(v) {
            sent.push(cmd.frame());
        }
    }
    r.alert
}

fn connected(addr: &str, sent: &mut Vec<String>) -> Controller {
    let mut c = Controller::new();
    assert!(matches!(c.on_connect_pressed(addr), ConnectOutcome::Started(_)));
    assert_eq!(inbound(&mut c, &status_frame(TransportStatus::Opened), sent), None);
    c
}

fn assert_idle(c: &Controller) {
    assert_eq!(c.phase, Phase::Idle);
    assert!(c.is_well_formed());
    assert!(c.view.is_enabled(Control::AddressEntry));
    assert!(c.view.is_enabled(Control::ConnectButton));
    assert_eq!(c.view.connect_label.text(), "Connect");
    assert!(!c.view.is_enabled(Control::VolumeSpinner));
    for ctl in CONTROLS {
        assert!(!c.view.is_enabled(ctl));
    }
    for b in BUTTONS {
        assert_eq!(c.on_click(b), None);
    }
}

#[test]
fn initial_view() {
    let c = Controller::new();
    assert_idle(&c);
    assert_eq!(c.view.spinner_value, 0);
    assert_eq!(default_address(), "spotifypi.local:9487");
}

#[test]
fn happy_connect_and_volume_sync() {
    let mut sent = Vec::new();
    let mut c = Controller::new();
    assert!(matches!(c.on_connect_pressed("host:9487"), ConnectOutcome::Started(_)));
    assert_eq!(c.phase, Phase::Connecting);
    assert!(!c.view.is_enabled(Control::ConnectButton));
    assert_eq!(c.view.connect_label.text(), "Connecting…");
    assert!(c.view.is_enabled(Control::AddressEntry));
    assert_eq!(inbound(&mut c, "[connect](ok)", &mut sent), None);
    assert_eq!(c.phase, Phase::Connected);
    assert_eq!(c.view.connect_label.text(), "Connected");
    assert!(!c.view.is_enabled(Control::AddressEntry));
    assert_eq!(inbound(&mut c, "[volume](42)", &mut sent), None);
    assert_eq!(sent, vec!["get_volume".to_string()]);
    assert_eq!(c.view.spinner_value, 42);
    assert!(c.view.is_enabled(Control::VolumeSpinner));
    assert_eq!(c.echo_guard, None);
}

#[test]
fn user_volume_change() {
    let mut sent = Vec::new();
    let mut c = connected("host:9487", &mut sent);
    inbound(&mut c, "[volume](42)", &mut sent);
    sent.clear();
    let cmd = c.on_volume_changed(77);
    assert_eq!(cmd, Some(Command::SetVolume(77)));
    assert_eq!(cmd.unwrap().frame(), "set_volume 77");
    assert!(!c.view.is_enabled(Control::VolumeSpinner));
    assert_eq!(inbound(&mut c, "[volume](77)", &mut sent), None);
    assert!(c.view.is_enabled(Control::VolumeSpinner));
    assert_eq!(c.view.spinner_value, 77);
    assert!(sent.is_empty());
}

#[test]
fn server_overrides_volume() {
    let mut sent = Vec::new();
    let mut c = connected("host:9487", &mut sent);
    inbound(&mut c, "[volume](30)", &mut sent);
    sent.clear();
    assert!(c.view.is_enabled(Control::VolumeSpinner));
    inbound(&mut c, "[volume](55)", &mut sent);
    assert_eq!(c.view.spinner_value, 55);
    assert!(c.view.is_enabled(Control::VolumeSpinner));
    assert!(sent.is_empty());
}

#[test]
fn inbound_volumes_never_echo() {
    let mut sent = Vec::new();
    let mut c = connected("host:9487", &mut sent);
    sent.clear();
    for frame in ["[volume](10)", "[volume](10)", "[volume](99)", "[volume](150)", "[volume](-4)", "[volume](0)"] {
        inbound(&mut c, frame, &mut sent);
        assert_eq!(c.echo_guard, None);
    }
    assert!(sent.is_empty());
    assert_eq!(c.view.spinner_value, 0);
}

#[test]
fn out_of_range_volume_is_clamped() {
    let mut sent = Vec::new();
    let mut c = connected("host:9487", &mut sent);
    inbound(&mut c, "[volume](250)", &mut sent);
    assert_eq!(c.view.spinner_value, 100);
    inbound(&mut c, "[volume](-3)", &mut sent);
    assert_eq!(c.view.spinner_value, 0);
    inbound(&mut c, "[volume](loud)", &mut sent);
    assert_eq!(c.view.spinner_value, 0);
    assert_eq!(sent, vec!["get_volume".to_string()]);
}

#[test]
fn connect_failure() {
    let mut c = Controller::new();
    assert!(matches!(c.on_connect_pressed("nonexistent.local:1"), ConnectOutcome::Started(_)));
    let before = c;
    let r = c.on_frame(&status_frame(TransportStatus::OpenFailed));
    assert_eq!(before.phase, Phase::Connecting);
    assert_eq!(r.alert, Some(Alert::ConnectFailed));
    assert_eq!(r.alert.unwrap().text(), "Connect failed.");
    assert!(r.detach);
    assert_eq!(r.send, None);
    assert_idle(&c);
}

#[test]
fn mid_session_disconnect() {
    let mut sent = Vec::new();
    let mut c = connected("host:9487", &mut sent);
    inbound(&mut c, "[volume](42)", &mut sent);
    let r = c.on_frame(&status_frame(TransportStatus::Closed));
    assert_eq!(r.alert, Some(Alert::ConnectionClosed));
    assert_eq!(r.alert.unwrap().text(), "WebSocket connection closed.");
    assert!(r.detach);
    assert_idle(&c);
    assert_eq!(c.view.connect_label, ConnectLabel::Connect);
    assert_eq!(c.on_volume_changed(12), None);
}

#[test]
fn bad_address() {
    let mut c = Controller::new();
    match c.on_connect_pressed("::not a url::") {
        ConnectOutcome::Rejected(msg) => {
            assert!(!msg.is_empty());
            assert!(!msg.contains("not a url"));
        }
        _ => panic!("the address should not parse"),
    }
    assert_idle(&c);
    assert_eq!(c, Controller::new());
}

#[test]
fn clicks_send_their_commands_only_when_connected() {
    let expected = [
        "prev_track",
        "toggle_play_pause",
        "next_track",
        "toggle_shuffle",
        "toggle_repeat_state",
        "shutdown",
        "reboot",
    ];
    let mut sent = Vec::new();
    let mut c = Controller::new();
    assert!(matches!(c.on_connect_pressed("host:9487"), ConnectOutcome::Started(_)));
    for b in BUTTONS {
        assert_eq!(c.on_click(b), None);
    }
    inbound(&mut c, "[connect](ok)", &mut sent);
    for (b, frame) in BUTTONS.iter().zip(expected) {
        assert_eq!(c.on_click(*b).map(|cmd| cmd.frame()), Some(frame.to_string()));
    }
    assert!(Button::Shutdown.in_power_menu());
    assert!(Button::Reboot.in_power_menu());
    assert!(!Button::NextTrack.in_power_menu());
}

#[test]
fn enablement_follows_the_phase() {
    let mut sent = Vec::new();
    let mut c = Controller::new();
    assert!(matches!(c.on_connect_pressed("host:9487"), ConnectOutcome::Started(_)));
    for ctl in CONTROLS {
        assert!(!c.view.is_enabled(ctl));
    }
    inbound(&mut c, "[connect](ok)", &mut sent);
    for ctl in CONTROLS {
        assert!(c.view.is_enabled(ctl));
    }
    assert!(!c.view.is_enabled(Control::ConnectButton));
    inbound(&mut c, "[connect](failed)", &mut sent);
    assert_idle(&c);
}

#[test]
fn second_connect_press_is_ignored() {
    let mut c = Controller::new();
    assert!(matches!(c.on_connect_pressed("host:9487"), ConnectOutcome::Started(_)));
    let before = c;
    assert!(matches!(c.on_connect_pressed("other:1"), ConnectOutcome::Ignored));
    assert_eq!(c, before);
}

#[test]
fn events_without_a_session_change_nothing() {
    let mut c = Controller::new();
    for frame in ["[connect](ok)", "[connect](failed)", "[disconnect]()", "[volume](40)", "noise"] {
        let r = c.on_frame(frame);
        assert_eq!(r.send, None);
        assert_eq!(r.alert, None);
        assert!(!r.detach);
        assert_eq!(c, Controller::new());
    }
}

#[test]
fn unknown_frames_are_ignored_when_connected() {
    let mut sent = Vec::new();
    let mut c = connected("host:9487", &mut sent);
    let before = c;
    for frame in ["[track](Song)", "hello", "[volume]()"] {
        assert_eq!(inbound(&mut c, frame, &mut sent), None);
    }
    assert_eq!(c, before);
    assert_eq!(sent, vec!["get_volume".to_string()]);
}
