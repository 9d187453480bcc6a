//! The controls of the panel and the state the controller keeps for them.
use vstd::prelude::*;

verus! {

/// A named control of the panel.
#[derive(Clone, Copy, Debug, PartialEq, Eq, Structural)]
pub enum Control {
    AddressEntry,
    ConnectButton,
    PrevTrack,
    PlayPause,
    NextTrack,
    ToggleShuffle,
    ToggleRepeatState,
    PowerMenu,
    PowerPopover,
    Shutdown,
    Reboot,
    VolumeLabel,
    VolumeSpinner,
}

/// The label on the connect button.
#[derive(Clone, Copy, Debug, PartialEq, Eq, Structural)]
pub enum ConnectLabel {
    Connect,
    Connecting,
    Connected,
}

/// The text of a connect-button label.
pub open spec fn label_text(l: ConnectLabel) -> Seq<char> {
    match l {
        ConnectLabel::Connect => "Connect"@,
        ConnectLabel::Connecting => "Connecting…"@,
        ConnectLabel::Connected => "Connected"@,
    }
}

impl ConnectLabel {
    /// The text shown on the connect button.
    pub fn text(&self) -> (r: &'static str)
        ensures
            r@ == label_text(*self),
    {
        match *self {
            ConnectLabel::Connect => "Connect",
            ConnectLabel::Connecting => "Connecting…",
            ConnectLabel::Connected => "Connected",
        }
    }
}

/// What the panel shows: which controls take input, the connect label and the volume.
#[derive(Clone, Copy, Debug, PartialEq, Eq, Structural)]
pub struct ViewState {
    /// The address entry accepts edits.
    pub address_editable: bool,
    /// The connect button takes clicks.
    pub connect_enabled: bool,
    pub connect_label: ConnectLabel,
    /// The transport buttons, the power menu with its buttons, and the volume label.
    pub controls_enabled: bool,
    pub spinner_enabled: bool,
    /// The value the volume spinner shows.
    pub spinner_value: i32,
}

/// Whether control `c` takes user input in view `v`.
pub open spec fn enabled(v: ViewState, c: Control) -> bool {
    match c {
        Control::AddressEntry => v.address_editable,
        Control::ConnectButton => v.connect_enabled,
        Control::VolumeSpinner => v.spinner_enabled,
        _ => v.controls_enabled,
    }
}

impl ViewState {
    /// Whether control `c` takes user input.
    pub fn is_enabled(&self, c: Control) -> (r: bool)
        ensures
            r == enabled(*self, c),
    {
        match c {
            Control::AddressEntry => self.address_editable,
            Control::ConnectButton => self.connect_enabled,
            Control::VolumeSpinner => self.spinner_enabled,
            _ => self.controls_enabled,
        }
    }
}

/// The address the entry holds when the panel opens.
pub fn default_address() -> (r: &'static str)
    ensures
        r@ == "spotifypi.local:9487"@,
{
    "spotifypi.local:9487"
}

} // verus!
