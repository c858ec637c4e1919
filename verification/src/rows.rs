//! What each entry of the device picker says and does.
use vstd::prelude::*;
use crate::icons::{device_icon, icon_for_kind};
use crate::list::DeviceList;
use crate::model::{Device, DeviceView, Icon, LocalPlayback, Receiver, opt_view, opt_eq, clone_opt};
use crate::text::{contains_text, occurs_in, spaced, underscores_to_spaces, with_this_computer};

verus! {

/// The name under which the picker shows a device: the local computer is
/// marked as such unless its name already says so.
pub open spec fn shown_name(name: Seq<char>, is_local: bool) -> Seq<char> {
    if is_local && !occurs_in("this computer"@, name) {
        name + " (this computer)"@
    } else {
        name
    }
}

/// The line under a device's name.
pub open spec fn status_line(device: DeviceView, active: bool, is_local: bool) -> Seq<char> {
    if active {
        "Listening on this device"@
    } else if device.is_restricted {
        "Restricted"@
    } else if is_local {
        "Play here"@
    } else {
        spaced(device.kind)
    }
}

/// Whether a device with identity `id` is the one that `other` names; a device
/// without identity is never named.
pub open spec fn same_known_id(id: Option<Seq<char>>, other: Option<Seq<char>>) -> bool {
    id is Some && id == other
}

/// One device entry of the picker.
pub struct DeviceRow {
    /// The name to show.
    pub name: String,
    /// The line under the name.
    pub status: String,
    /// Whether the device is this computer.
    pub is_local: bool,
    /// Whether the device plays now.
    pub active: bool,
    /// The icon to draw.
    pub icon: Icon,
    /// Where playback moves when the entry is chosen; none for the device
    /// that plays now and for a device without identity.
    pub transfer_to: Option<String>,
}

/// The entry for `device`, given this computer's identity and the identity of
/// the device that plays now.
pub fn device_row(device: &Device, local_id: &Option<String>, active_id: &Option<String>) -> (row: DeviceRow)
    ensures
        row.is_local == same_known_id(opt_view(device.id), opt_view(*local_id)),
        row.active == same_known_id(opt_view(device.id), opt_view(*active_id)),
        row.name@ == shown_name(device.name@, row.is_local),
        !row.is_local ==> row.name@ == device.name@,
        row.status@ == status_line(device@, row.active, row.is_local),
        row.active ==> row.status@ == "Listening on this device"@,
        !row.active && device.is_restricted ==> row.status@ == "Restricted"@,
        !row.active && !device.is_restricted && row.is_local ==> row.status@ == "Play here"@,
        !row.active && !device.is_restricted && !row.is_local ==> {
            &&& row.status@.len() == device.kind@.len()
            &&& forall|i: int| 0 <= i < device.kind@.len() ==> #[trigger] row.status@[i]
                == if device.kind@[i] == '_' { ' ' } else { device.kind@[i] }
        },
        row.icon == icon_for_kind(device.kind@),
        opt_view(row.transfer_to) == if row.active { None } else { opt_view(device.id) },
{
    let is_local = device.id.is_some() && opt_eq(&device.id, local_id);
    let active = device.id.is_some() && opt_eq(&device.id, active_id);
    let name = if is_local && !contains_text(device.name.as_str(), "this computer") {
        with_this_computer(device.name.as_str())
    } else {
        device.name.clone()
    };
    let status = if active {
        String::from_str("Listening on this device")
    } else if device.is_restricted {
        String::from_str("Restricted")
    } else if is_local {
        String::from_str("Play here")
    } else {
        underscores_to_spaces(device.kind.as_str())
    };
    let transfer_to = if active { None } else { clone_opt(&device.id) };
    DeviceRow { name, status, is_local, active, icon: device_icon(device.kind.as_str()), transfer_to }
}

/// One entry of the picker for a receiver that the account does not list yet.
pub struct ReceiverRow {
    /// Whether the account is being handed over to this receiver.
    pub activating: bool,
    /// The line under the receiver's name.
    pub status: String,
    /// The receiver that choosing the entry hands the account over to; none
    /// while a hand-over to it is already under way.
    pub hand_over_to: Option<Receiver>,
}

/// The entry for `receiver`, given the name of the receiver that the account is
/// being handed over to, if any. Choosing the entry hands the account over
/// only when that is not already under way.
pub fn receiver_row(receiver: &Receiver, activating_receiver: &Option<String>) -> (row: ReceiverRow)
    ensures
        row.activating == (opt_view(*activating_receiver) == Some(receiver.name@)),
        row.status@ == if row.activating {
            "Connecting\u{2026}"@
        } else {
            "On your network, click to connect"@
        },
        row.hand_over_to == if row.activating { None } else { Some(*receiver) },
{
    let activating = match activating_receiver {
        Some(name) => *name == receiver.name,
        None => false,
    };
    let status = if activating {
        String::from_str("Connecting\u{2026}")
    } else {
        String::from_str("On your network, click to connect")
    };
    let hand_over_to = if activating { None } else { Some(receiver.clone()) };
    ReceiverRow { activating, status, hand_over_to }
}

/// Whether setting up playback on this computer is under way.
pub open spec fn setting_up(playback: LocalPlayback) -> bool {
    playback == LocalPlayback::Authorizing || playback == LocalPlayback::Connecting
}

/// The entry that offers playback on this computer.
pub struct PlaybackSetupRow {
    /// Whether setting up playback is under way.
    pub setting_up: bool,
    /// The line under the computer's name.
    pub status: String,
    /// Whether choosing the entry asks to set up playback; not while that is
    /// under way.
    pub enable_on_click: bool,
}

/// The entry that offers playback on this computer, given how far its set-up
/// has come.
pub fn playback_setup_row(playback: LocalPlayback) -> (row: PlaybackSetupRow)
    ensures
        row.setting_up == setting_up(playback),
        row.status@ == if row.setting_up { "Setting up\u{2026}"@ } else { "Set up playback here"@ },
        row.enable_on_click == !row.setting_up,
{
    let under_way = match playback {
        LocalPlayback::Authorizing | LocalPlayback::Connecting => true,
        _ => false,
    };
    let status = if under_way {
        String::from_str("Setting up\u{2026}")
    } else {
        String::from_str("Set up playback here")
    };
    PlaybackSetupRow { setting_up: under_way, status, enable_on_click: !under_way }
}

/// Whether the picker says that no device was found: it offers nothing and
/// this computer is ready to play.
pub fn nothing_found(list: &DeviceList, local_ready: bool) -> (res: bool)
    ensures
        res == (list.devices@.len() == 0 && list.waiting@.len() == 0 && local_ready),
{
    list.devices.len() == 0 && list.waiting.len() == 0 && local_ready
}

} // verus!
