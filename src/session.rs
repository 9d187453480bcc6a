//! The session controller: one connection at a time, driven by user input and inbound
//! frames, deciding what the panel shows and which commands go out.
use vstd::prelude::*;

use crate::address::{parse_error_text, parse_url, url_accepts, ws_address, ws_address_text};
use crate::codec::{inbound_event, read_frame, Command, InboundEvent};
use crate::view::{ConnectLabel, ViewState};

verus! {

/// Where the session stands.
#[derive(Clone, Copy, Debug, PartialEq, Eq, Structural)]
pub enum Phase {
    Idle,
    Connecting,
    Connected,
    /// Passed through during teardown, on the way back to `Idle`.
    Closing,
}

/// A button whose click sends a command.
#[derive(Clone, Copy, Debug, PartialEq, Eq, Structural)]
pub enum Button {
    PrevTrack,
    PlayPause,
    NextTrack,
    ToggleShuffle,
    ToggleRepeatState,
    Shutdown,
    Reboot,
}

/// The command that a click on `b` sends.
pub open spec fn button_command(b: Button) -> Command {
    match b {
        Button::PrevTrack => Command::PrevTrack,
        Button::PlayPause => Command::TogglePlayPause,
        Button::NextTrack => Command::NextTrack,
        Button::ToggleShuffle => Command::ToggleShuffle,
        Button::ToggleRepeatState => Command::ToggleRepeatState,
        Button::Shutdown => Command::Shutdown,
        Button::Reboot => Command::Reboot,
    }
}

impl Button {
    /// The command that a click on this button sends.
    pub fn command(&self) -> (r: Command)
        ensures
            r == button_command(*self),
    {
        match *self {
            Button::PrevTrack => Command::PrevTrack,
            Button::PlayPause => Command::TogglePlayPause,
            Button::NextTrack => Command::NextTrack,
            Button::ToggleShuffle => Command::ToggleShuffle,
            Button::ToggleRepeatState => Command::ToggleRepeatState,
            Button::Shutdown => Command::Shutdown,
            Button::Reboot => Command::Reboot,
        }
    }

    /// The button sits in the power menu, whose popover closes before the command goes out.
    pub fn in_power_menu(&self) -> (r: bool)
        ensures
            r == (*self == Button::Shutdown || *self == Button::Reboot),
    {
        match *self {
            Button::Shutdown | Button::Reboot => true,
            _ => false,
        }
    }
}

/// Message of the dialog shown when a session ends.
#[derive(Clone, Copy, Debug, PartialEq, Eq, Structural)]
pub enum Alert {
    ConnectFailed,
    ConnectionClosed,
}

/// The text of an alert.
pub open spec fn alert_text(a: Alert) -> Seq<char> {
    match a {
        Alert::ConnectFailed => "Connect failed."@,
        Alert::ConnectionClosed => "WebSocket connection closed."@,
    }
}

impl Alert {
    /// The message the dialog shows.
    pub fn text(&self) -> (r: &'static str)
        ensures
            r@ == alert_text(*self),
    {
        match *self {
            Alert::ConnectFailed => "Connect failed.",
            Alert::ConnectionClosed => "WebSocket connection closed.",
        }
    }
}

/// What the surroundings carry out after an inbound event.
#[derive(Clone, Copy, Debug, PartialEq, Eq, Structural)]
pub struct Reaction {
    /// A command to put on the outbound queue.
    pub send: Option<Command>,
    /// A dialog to show.
    pub alert: Option<Alert>,
    /// Detach every user-event subscription and drop the transport.
    pub detach: bool,
}

/// Outcome of a press on the connect button.
pub enum ConnectOutcome {
    /// No session could start from the current phase.
    Ignored,
    /// The address did not parse; the text is the parser's message.
    Rejected(String),
    /// A session started: subscribe the controls and open a transport to this URL.
    Started(url::Url),
}

/// The controller's state: the phase, the view it decided, whether the user-event
/// subscriptions are attached, and the volume echo guard.
#[derive(Clone, Copy, Debug, PartialEq, Eq, Structural)]
pub struct Controller {
    pub phase: Phase,
    pub view: ViewState,
    /// The controls' user events are routed to the session.
    pub subscribed: bool,
    /// The value of a programmatic spinner write whose change event is still to come.
    pub echo_guard: Option<i32>,
}

/// A volume as the spinner holds it: within 0 to 100.
pub open spec fn clamp_volume(n: int) -> int {
    if n < 0 {
        0
    } else if n > 100 {
        100
    } else {
        n
    }
}

/// The view with no session, showing volume `v`.
pub open spec fn idle_view(v: i32) -> ViewState {
    ViewState {
        address_editable: true,
        connect_enabled: true,
        connect_label: ConnectLabel::Connect,
        controls_enabled: false,
        spinner_enabled: false,
        spinner_value: v,
    }
}

/// The view while the transport opens.
pub open spec fn connecting_view(v: i32) -> ViewState {
    ViewState {
        address_editable: true,
        connect_enabled: false,
        connect_label: ConnectLabel::Connecting,
        controls_enabled: false,
        spinner_enabled: false,
        spinner_value: v,
    }
}

/// The view once connected, with the spinner taking input or not.
pub open spec fn connected_view(v: i32, spinner: bool) -> ViewState {
    ViewState {
        address_editable: false,
        connect_enabled: false,
        connect_label: ConnectLabel::Connected,
        controls_enabled: true,
        spinner_enabled: spinner,
        spinner_value: v,
    }
}

/// The state with no session.
pub open spec fn idle_state(v: i32) -> Controller {
    Controller { phase: Phase::Idle, view: idle_view(v), subscribed: false, echo_guard: None }
}

/// The state right after a session started.
pub open spec fn connecting_state(v: i32) -> Controller {
    Controller {
        phase: Phase::Connecting,
        view: connecting_view(v),
        subscribed: true,
        echo_guard: None,
    }
}

/// No reaction at all.
pub open spec fn quiet() -> Reaction {
    Reaction { send: None, alert: None, detach: false }
}

/// The next state and the reaction for inbound event `e`.
pub open spec fn next_on_event(c: Controller, e: InboundEvent) -> (Controller, Reaction) {
    let v = c.view.spinner_value;
    match e {
        InboundEvent::ConnectOk => if c.phase == Phase::Connecting {
            (
                Controller {
                    phase: Phase::Connected,
                    view: connected_view(v, true),
                    subscribed: true,
                    echo_guard: None,
                },
                Reaction { send: Some(Command::GetVolume), alert: None, detach: false },
            )
        } else {
            (c, quiet())
        },
        InboundEvent::ConnectFailed => terminal(c, Alert::ConnectFailed),
        InboundEvent::Disconnected => terminal(c, Alert::ConnectionClosed),
        InboundEvent::Volume(n) => if c.phase == Phase::Connected {
            let target = clamp_volume(n as int) as i32;
            let guard = if target != v { Some(target) } else { c.echo_guard };
            (
                Controller {
                    phase: Phase::Connected,
                    view: connected_view(target, true),
                    subscribed: true,
                    echo_guard: guard,
                },
                quiet(),
            )
        } else {
            (c, quiet())
        },
        InboundEvent::Unknown => (c, quiet()),
    }
}

/// A terminal event: a live session is torn down and the alert shown; with no session
/// nothing happens.
pub open spec fn terminal(c: Controller, a: Alert) -> (Controller, Reaction) {
    if c.phase == Phase::Connecting || c.phase == Phase::Connected {
        (idle_state(c.view.spinner_value), Reaction { send: None, alert: Some(a), detach: true })
    } else {
        (c, quiet())
    }
}

/// The next state and the command sent when the spinner reports value `v`.
pub open spec fn next_on_volume_changed(c: Controller, v: i32) -> (Controller, Option<Command>) {
    if c.phase != Phase::Connected {
        (Controller { view: ViewState { spinner_value: v, ..c.view }, ..c }, None)
    } else if c.echo_guard == Some(v) {
        (
            Controller {
                view: ViewState { spinner_value: v, ..c.view },
                echo_guard: None,
                ..c
            },
            None,
        )
    } else {
        (
            Controller {
                view: connected_view(v, false),
                echo_guard: None,
                ..c
            },
            Some(Command::SetVolume(v as u32)),
        )
    }
}

/// The command that a click on `b` sends.
pub open spec fn click_command(c: Controller, b: Button) -> Option<Command> {
    if c.phase == Phase::Connected {
        Some(button_command(b))
    } else {
        None
    }
}

impl Controller {
    /// The states the controller rests in between inputs.
    pub open spec fn wf(&self) -> bool {
        let v = self.view.spinner_value;
        &&& 0 <= v <= 100
        &&& match self.phase {
            Phase::Idle => *self == idle_state(v),
            Phase::Connecting => *self == connecting_state(v),
            Phase::Connected => {
                &&& self.subscribed
                &&& self.view == connected_view(v, self.view.spinner_enabled)
                &&& (self.echo_guard is Some ==> self.echo_guard == Some(v))
            },
            Phase::Closing => false,
        }
    }

    /// The panel as it opens: no session, every control but the address entry and the
    /// connect button disabled, volume 0.
    pub fn new() -> (r: Controller)
        ensures
            r == idle_state(0),
            r.wf(),
    {
        Controller {
            phase: Phase::Idle,
            view: ViewState {
                address_editable: true,
                connect_enabled: true,
                connect_label: ConnectLabel::Connect,
                controls_enabled: false,
                spinner_enabled: false,
                spinner_value: 0,
            },
            subscribed: false,
            echo_guard: None,
        }
    }

    /// Whether the state is one the controller rests in.
    pub fn is_well_formed(&self) -> (r: bool)
        ensures
            r == self.wf(),
    {
        let v = self.view.spinner_value;
        if v < 0 || v > 100 {
            return false;
        }
        match self.phase {
            Phase::Idle => *self == Controller {
                phase: Phase::Idle,
                view: ViewState {
                    address_editable: true,
                    connect_enabled: true,
                    connect_label: ConnectLabel::Connect,
                    controls_enabled: false,
                    spinner_enabled: false,
                    spinner_value: v,
                },
                subscribed: false,
                echo_guard: None,
            },
            Phase::Connecting => *self == Controller {
                phase: Phase::Connecting,
                view: ViewState {
                    address_editable: true,
                    connect_enabled: false,
                    connect_label: ConnectLabel::Connecting,
                    controls_enabled: false,
                    spinner_enabled: false,
                    spinner_value: v,
                },
                subscribed: true,
                echo_guard: None,
            },
            Phase::Connected => {
                let guard_ok = match self.echo_guard {
                    Some(g) => g == v,
                    None => true,
                };
                self.subscribed && guard_ok && self.view == ViewState {
                    address_editable: false,
                    connect_enabled: false,
                    connect_label: ConnectLabel::Connected,
                    controls_enabled: true,
                    spinner_enabled: self.view.spinner_enabled,
                    spinner_value: v,
                }
            },
            Phase::Closing => false,
        }
    }

    /// Ends the session: detaches the subscriptions, disables the controls and returns
    /// to `Idle` through `Closing`.
    fn teardown(&mut self, a: Alert) -> (r: Reaction)
        requires
            old(self).wf(),
            old(self).phase == Phase::Connecting || old(self).phase == Phase::Connected,
        ensures
            (*final(self), r) == terminal(*old(self), a),
    {
        self.phase = Phase::Closing;
        self.subscribed = false;
        self.echo_guard = None;
        self.view.controls_enabled = false;
        self.view.spinner_enabled = false;
        self.view.address_editable = true;
        self.view.connect_label = ConnectLabel::Connect;
        self.view.connect_enabled = true;
        self.phase = Phase::Idle;
        Reaction { send: None, alert: Some(a), detach: true }
    }

    /// Reacts to an inbound event.
    pub fn on_event(&mut self, e: InboundEvent) -> (r: Reaction)
        requires
            old(self).wf(),
        ensures
            (*final(self), r) == next_on_event(*old(self), e),
            final(self).wf(),
    {
        let quiet = Reaction { send: None, alert: None, detach: false };
        match e {
            InboundEvent::ConnectOk => {
                if self.phase == Phase::Connecting {
                    self.phase = Phase::Connected;
                    self.view.address_editable = false;
                    self.view.connect_enabled = false;
                    self.view.connect_label = ConnectLabel::Connected;
                    self.view.controls_enabled = true;
                    self.view.spinner_enabled = true;
                    Reaction { send: Some(Command::GetVolume), alert: None, detach: false }
                } else {
                    quiet
                }
            },
            InboundEvent::ConnectFailed => {
                if self.phase == Phase::Connecting || self.phase == Phase::Connected {
                    self.teardown(Alert::ConnectFailed)
                } else {
                    quiet
                }
            },
            InboundEvent::Disconnected => {
                if self.phase == Phase::Connecting || self.phase == Phase::Connected {
                    self.teardown(Alert::ConnectionClosed)
                } else {
                    quiet
                }
            },
            InboundEvent::Volume(n) => {
                if self.phase == Phase::Connected {
                    let target: i32 = if n < 0 {
                        0
                    } else if n > 100 {
                        100
                    } else {
                        n
                    };
                    if target != self.view.spinner_value {
                        self.echo_guard = Some(target);
                        self.view.spinner_value = target;
                    }
                    self.view.spinner_enabled = true;
                }
                quiet
            },
            InboundEvent::Unknown => quiet,
        }
    }

    /// Reacts to an inbound text frame.
    pub fn on_frame(&mut self, frame: &str) -> (r: Reaction)
        requires
            old(self).wf(),
        ensures
            (*final(self), r) == next_on_event(*old(self), inbound_event(frame@)),
            final(self).wf(),
    {
        let e = read_frame(frame);
        self.on_event(e)
    }

    /// Reacts to the volume spinner's value-change event, reporting value `v`; returns
    /// the command to send, if any.
    pub fn on_volume_changed(&mut self, v: i32) -> (r: Option<Command>)
        requires
            old(self).wf(),
            0 <= v <= 100,
        ensures
            (*final(self), r) == next_on_volume_changed(*old(self), v),
            final(self).wf(),
    {
        if self.phase != Phase::Connected {
            self.view.spinner_value = v;
            None
        } else if self.echo_guard == Some(v) {
            self.view.spinner_value = v;
            self.echo_guard = None;
            None
        } else {
            self.view.spinner_value = v;
            self.view.spinner_enabled = false;
            self.echo_guard = None;
            Some(Command::SetVolume(v as u32))
        }
    }

    /// The command that a click on `b` sends; none without a live connection.
    pub fn on_click(&self, b: Button) -> (r: Option<Command>)
        requires
            self.wf(),
        ensures
            r == click_command(*self, b),
    {
        if self.phase == Phase::Connected {
            Some(b.command())
        } else {
            None
        }
    }

    /// Starts a session from the result of parsing its URL; a parse error leaves the
    /// controller idle and is reported with the parser's message.
    pub fn start_connect(&mut self, parsed: Result<url::Url, url::ParseError>) -> (r:
        ConnectOutcome)
        requires
            old(self).wf(),
        ensures
            final(self).wf(),
            old(self).phase != Phase::Idle ==> r is Ignored && *final(self) == *old(self),
            old(self).phase == Phase::Idle && parsed is Ok ==> r == ConnectOutcome::Started(
                parsed->Ok_0,
            ) && *final(self) == connecting_state(old(self).view.spinner_value),
            old(self).phase == Phase::Idle && parsed is Err ==> r is Rejected && r->Rejected_0@.len()
                > 0 && *final(self) == *old(self),
    {
        if self.phase != Phase::Idle {
            return ConnectOutcome::Ignored;
        }
        match parsed {
            Ok(u) => {
                self.phase = Phase::Connecting;
                self.subscribed = true;
                self.view.connect_enabled = false;
                self.view.connect_label = ConnectLabel::Connecting;
                ConnectOutcome::Started(u)
            },
            Err(e) => ConnectOutcome::Rejected(parse_error_text(&e)),
        }
    }

    /// Reacts to a press on the connect button while the address entry holds `entry`.
    pub fn on_connect_pressed(&mut self, entry: &str) -> (r: ConnectOutcome)
        requires
            old(self).wf(),
        ensures
            final(self).wf(),
            old(self).phase != Phase::Idle ==> r is Ignored && *final(self) == *old(self),
            old(self).phase == Phase::Idle && url_accepts(ws_address_text(entry@)) ==> r is Started
                && *final(self) == connecting_state(old(self).view.spinner_value),
            old(self).phase == Phase::Idle && !url_accepts(ws_address_text(entry@)) ==> r is Rejected
                && *final(self) == *old(self),
    {
        if self.phase != Phase::Idle {
            return ConnectOutcome::Ignored;
        }
        let address = ws_address(entry);
        let parsed = parse_url(address.as_str());
        self.start_connect(parsed)
    }
}

} // verus!
