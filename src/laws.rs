//! Facts about every run of the session controller.
use vstd::prelude::*;

use crate::codec::{command_frame, decimal, Command, InboundEvent};
use crate::session::{
    button_command, click_command, idle_state, next_on_event, next_on_volume_changed, Button,
    Controller, Phase,
};
use crate::view::{enabled, Control};

verus! {

/// Every inbound event takes a resting state to a resting state.
pub proof fn lemma_event_keeps_wf(c: Controller, e: InboundEvent)
    requires
        c.wf(),
    ensures
        next_on_event(c, e).0.wf(),
{
}

/// Every spinner change with a value in range takes a resting state to a resting state.
pub proof fn lemma_volume_change_keeps_wf(c: Controller, v: i32)
    requires
        c.wf(),
        0 <= v <= 100,
    ensures
        next_on_volume_changed(c, v).0.wf(),
{
}

/// The panel opens in a resting state.
pub proof fn lemma_initial_wf()
    ensures
        idle_state(0).wf(),
{
}

/// In every resting state, each control but the address entry, the connect button and
/// the volume spinner takes input exactly when connected; the spinner takes input only
/// when connected, and then exactly when no volume request awaits its answer.
pub proof fn lemma_enablement(c: Controller, ctl: Control)
    requires
        c.wf(),
    ensures
        ctl != Control::AddressEntry && ctl != Control::ConnectButton && ctl
            != Control::VolumeSpinner ==> (enabled(c.view, ctl) <==> c.phase == Phase::Connected),
        enabled(c.view, Control::VolumeSpinner) ==> c.phase == Phase::Connected,
{
}

/// In every resting state the address entry accepts edits exactly when not connected.
pub proof fn lemma_editability(c: Controller)
    requires
        c.wf(),
    ensures
        enabled(c.view, Control::AddressEntry) <==> c.phase != Phase::Connected,
{
}

/// A click sends its button's command exactly when connected, and nothing otherwise.
pub proof fn lemma_click_command(c: Controller, b: Button)
    requires
        c.wf(),
    ensures
        c.phase == Phase::Connected ==> click_command(c, b) == Some(button_command(b)),
        c.phase != Phase::Connected ==> click_command(c, b) is None,
        b == Button::PrevTrack ==> command_frame(button_command(b)) == "prev_track"@,
        b == Button::PlayPause ==> command_frame(button_command(b)) == "toggle_play_pause"@,
        b == Button::NextTrack ==> command_frame(button_command(b)) == "next_track"@,
        b == Button::ToggleShuffle ==> command_frame(button_command(b)) == "toggle_shuffle"@,
        b == Button::ToggleRepeatState ==> command_frame(button_command(b))
            == "toggle_repeat_state"@,
        b == Button::Shutdown ==> command_frame(button_command(b)) == "shutdown"@,
        b == Button::Reboot ==> command_frame(button_command(b)) == "reboot"@,
{
}

/// One inbound volume followed by the change event that the spinner fires when its
/// value moved: the resulting state and what was sent.
pub open spec fn volume_update(c: Controller, n: i32) -> (Controller, Seq<Command>) {
    let (c1, r1) = next_on_event(c, InboundEvent::Volume(n));
    let sent1 = match r1.send {
        Some(cmd) => seq![cmd],
        None => Seq::empty(),
    };
    if c1.view.spinner_value != c.view.spinner_value {
        let (c2, s2) = next_on_volume_changed(c1, c1.view.spinner_value);
        let sent2 = match s2 {
            Some(cmd) => seq![cmd],
            None => Seq::empty(),
        };
        (c2, sent1 + sent2)
    } else {
        (c1, sent1)
    }
}

/// A run of inbound volumes, each followed by the spinner's change event where its
/// value moved: the final state and everything sent.
pub open spec fn volume_updates(c: Controller, ns: Seq<i32>) -> (Controller, Seq<Command>)
    decreases ns.len(),
{
    if ns.len() == 0 {
        (c, Seq::empty())
    } else {
        let (c1, sent1) = volume_updates(c, ns.drop_last());
        let (c2, sent2) = volume_update(c1, ns.last());
        (c2, sent1 + sent2)
    }
}

/// Inbound volumes never echo: the spinner writes they cause send nothing, and leave
/// the guard clear and the state resting.
pub proof fn lemma_volume_no_echo(c: Controller, ns: Seq<i32>)
    requires
        c.wf(),
    ensures
        volume_updates(c, ns).0.wf(),
        c.echo_guard is None ==> volume_updates(c, ns).0.echo_guard is None,
        volume_updates(c, ns).1 == Seq::<Command>::empty(),
    decreases ns.len(),
{
    if ns.len() > 0 {
        lemma_volume_no_echo(c, ns.drop_last());
        let (c1, sent1) = volume_updates(c, ns.drop_last());
        assert(sent1 + Seq::<Command>::empty() =~= Seq::<Command>::empty());
    }
}

/// A user change of the spinner to a new value sends exactly that value, disables the
/// spinner, keeps it disabled through every inbound event but a volume, and a volume
/// enables it again.
pub proof fn lemma_volume_round_trip(c: Controller, v: i32, e: InboundEvent, n: i32)
    requires
        c.wf(),
        c.phase == Phase::Connected,
        0 <= v <= 100,
        v != c.view.spinner_value,
        e != InboundEvent::ConnectFailed && e != InboundEvent::Disconnected,
        !(e is Volume),
    ensures
        next_on_volume_changed(c, v).1 == Some(Command::SetVolume(v as u32)),
        command_frame(Command::SetVolume(v as u32)) == "set_volume "@ + decimal(v as nat),
        !next_on_volume_changed(c, v).0.view.spinner_enabled,
        next_on_volume_changed(c, v).0.view.spinner_value == v,
        !next_on_event(next_on_volume_changed(c, v).0, e).0.view.spinner_enabled,
        next_on_event(next_on_volume_changed(c, v).0, InboundEvent::Volume(n)).0.view.spinner_enabled,
{
}

/// After a terminal event the session is gone: every subscription is detached, and no
/// click or spinner change sends anything.
pub proof fn lemma_teardown(c: Controller, e: InboundEvent, b: Button, v: i32)
    requires
        c.wf(),
        c.phase == Phase::Connecting || c.phase == Phase::Connected,
        e == InboundEvent::ConnectFailed || e == InboundEvent::Disconnected,
    ensures
        next_on_event(c, e).1.detach,
        !next_on_event(c, e).0.subscribed,
        next_on_event(c, e).0.phase == Phase::Idle,
        click_command(next_on_event(c, e).0, b) is None,
        next_on_volume_changed(next_on_event(c, e).0, v).1 is None,
{
}

} // verus!
