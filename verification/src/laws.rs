//! Properties that hold of the picker's entries for every input.
use vstd::prelude::*;
use crate::icons::icon_for_kind;
use crate::list::{
    has_id, merged, playing_first, is_playing, named_all, distinct_ids, first_with_its_id, unlisted,
    shown_devices,
};
use crate::model::{DeviceView, ReceiverView};
use crate::picker::{lists, listed_in, renamed};
use crate::rows::{shown_name, status_line};
use crate::text::{ascii_lower, lower_chars, occurs_in};
use crate::icons::icon_for_lower_kind;
use crate::model::Icon;

verus! {

broadcast use {vstd::seq_lib::group_filter_ensures, vstd::seq::group_seq_axioms};

/// Naming a device after a receiver changes its name and nothing else.
pub proof fn law_naming_changes_only_the_name(device: DeviceView, receivers: Seq<ReceiverView>)
    ensures
        renamed(device, receivers) == (DeviceView { name: renamed(device, receivers).name, ..device }),
{
}

/// Which receivers with an identity the account lists does not depend on the
/// devices' names: naming the devices never changes it.
pub proof fn law_naming_keeps_identified_receivers_listed(
    receiver: ReceiverView,
    devices: Seq<DeviceView>,
    receivers: Seq<ReceiverView>,
)
    requires
        receiver.device_id is Some,
    ensures
        listed_in(receiver, named_all(devices, receivers)) == listed_in(receiver, devices),
{
    let named = named_all(devices, receivers);
    if listed_in(receiver, devices) {
        let i = choose|i: int| 0 <= i < devices.len() && lists(#[trigger] devices[i], receiver);
        assert(lists(named[i], receiver));
    }
    if listed_in(receiver, named) {
        let i = choose|i: int| 0 <= i < named.len() && lists(#[trigger] named[i], receiver);
        assert(lists(devices[i], receiver));
    }
}

/// Naming the devices a second time with the same receivers changes nothing.
pub proof fn law_naming_is_idempotent(devices: Seq<DeviceView>, receivers: Seq<ReceiverView>)
    ensures
        named_all(named_all(devices, receivers), receivers) == named_all(devices, receivers),
{
    let once = named_all(devices, receivers);
    let twice = named_all(once, receivers);
    assert forall|i: int| 0 <= i < once.len() implies twice[i] == once[i] by {
        let d = devices[i];
        if let Some(id) = d.id {
            if exists|j: int| crate::picker::first_advertiser(receivers, id, j) {
                assert(renamed(once[i], receivers) == once[i]);
            }
        }
    }
    assert(twice =~= once);
}

/// Every device that `distinct_ids` keeps is a device of its argument.
proof fn lemma_distinct_ids_origin(devices: Seq<DeviceView>)
    ensures
        forall|k: int| 0 <= k < distinct_ids(devices).len() ==>
            exists|j: int| 0 <= j < devices.len() && devices[j] == #[trigger] distinct_ids(devices)[k],
    decreases devices.len(),
{
    if devices.len() > 0 {
        let rest = devices.drop_last();
        lemma_distinct_ids_origin(rest);
        let out = distinct_ids(devices);
        assert forall|k: int| 0 <= k < out.len() implies
            exists|j: int| 0 <= j < devices.len() && devices[j] == #[trigger] out[k] by {
            if k < distinct_ids(rest).len() {
                assert(out[k] == distinct_ids(rest)[k]);
                let j = choose|j: int| 0 <= j < rest.len() && rest[j] == distinct_ids(rest)[k];
                assert(devices[j] == out[k]);
            } else {
                assert(devices[devices.len() - 1] == out[k]);
            }
        }
    }
}

/// No two devices that `distinct_ids` keeps have the same identity.
proof fn lemma_distinct_ids_unique(devices: Seq<DeviceView>)
    ensures
        forall|a: int, b: int| 0 <= a < b < distinct_ids(devices).len() && (#[trigger] distinct_ids(devices)[a]).id is Some
            ==> distinct_ids(devices)[a].id != (#[trigger] distinct_ids(devices)[b]).id,
    decreases devices.len(),
{
    if devices.len() > 0 {
        let rest = devices.drop_last();
        lemma_distinct_ids_unique(rest);
        lemma_distinct_ids_origin(rest);
        let out = distinct_ids(devices);
        let kept = distinct_ids(rest);
        if first_with_its_id(devices, devices.len() - 1) {
            assert forall|a: int, b: int| 0 <= a < b < out.len() && (#[trigger] out[a]).id is Some
                implies out[a].id != (#[trigger] out[b]).id by {
                if b < kept.len() {
                    assert(out[a] == kept[a] && out[b] == kept[b]);
                } else {
                    let j = choose|j: int| 0 <= j < rest.len() && rest[j] == kept[a];
                    assert(out[a] == devices[j]);
                }
            }
        }
    }
}

/// `distinct_ids` keeps some device of every identity its argument has.
proof fn lemma_distinct_ids_keeps_ids(devices: Seq<DeviceView>, id: Option<Seq<char>>)
    requires
        has_id(devices, id),
    ensures
        has_id(distinct_ids(devices), id),
    decreases devices.len(),
{
    let rest = devices.drop_last();
    let last = devices.last();
    let out = distinct_ids(devices);
    if last.id == id && first_with_its_id(devices, devices.len() - 1) {
        assert(out[out.len() - 1].id == id);
    } else {
        let i = choose|i: int| 0 <= i < devices.len() && (#[trigger] devices[i]).id == id;
        if i == devices.len() - 1 {
            let j = choose|j: int| 0 <= j < devices.len() - 1 && #[trigger] devices[j].id == last.id;
            assert(rest[j].id == id);
        } else {
            assert(rest[i].id == id);
        }
        lemma_distinct_ids_keeps_ids(rest, id);
        let k = choose|k: int| 0 <= k < distinct_ids(rest).len() && (#[trigger] distinct_ids(rest)[k]).id == id;
        assert(out[k] == distinct_ids(rest)[k]);
    }
}

/// Whether every device that plays stands before every device that does not.
pub open spec fn playing_in_front(devices: Seq<DeviceView>, active_id: Option<Seq<char>>) -> bool {
    forall|a: int, b: int| 0 <= a < b < devices.len() && is_playing(#[trigger] devices[b], active_id)
        ==> is_playing(#[trigger] devices[a], active_id)
}

/// Dropping repeated identities keeps the playing devices in front.
proof fn lemma_distinct_ids_keeps_order(devices: Seq<DeviceView>, active_id: Option<Seq<char>>)
    requires
        playing_in_front(devices, active_id),
    ensures
        playing_in_front(distinct_ids(devices), active_id),
    decreases devices.len(),
{
    if devices.len() > 0 {
        let rest = devices.drop_last();
        assert(playing_in_front(rest, active_id)) by {
            assert forall|a: int, b: int| 0 <= a < b < rest.len() && is_playing(#[trigger] rest[b], active_id)
                implies is_playing(#[trigger] rest[a], active_id) by {
                assert(rest[a] == devices[a] && rest[b] == devices[b]);
            }
        }
        lemma_distinct_ids_keeps_order(rest, active_id);
        lemma_distinct_ids_origin(rest);
        let out = distinct_ids(devices);
        let kept = distinct_ids(rest);
        assert forall|a: int, b: int| 0 <= a < b < out.len() && is_playing(#[trigger] out[b], active_id)
            implies is_playing(#[trigger] out[a], active_id) by {
            if b < kept.len() {
                assert(out[a] == kept[a] && out[b] == kept[b]);
            } else {
                let j = choose|j: int| 0 <= j < rest.len() && rest[j] == kept[a];
                assert(out[a] == devices[j]);
                assert(out[b] == devices[devices.len() - 1]);
            }
        }
    }
}

/// The picker never shows two devices with the same identity.
pub proof fn law_shown_identities_are_distinct(
    devices: Seq<DeviceView>,
    local: Option<DeviceView>,
    active_id: Option<Seq<char>>,
    receivers: Seq<ReceiverView>,
)
    ensures
        forall|a: int, b: int|
            0 <= a < b < shown_devices(devices, local, active_id, receivers).len()
            && (#[trigger] shown_devices(devices, local, active_id, receivers)[a]).id is Some
            ==> shown_devices(devices, local, active_id, receivers)[a].id
                != (#[trigger] shown_devices(devices, local, active_id, receivers)[b]).id,
{
    lemma_distinct_ids_unique(named_all(playing_first(merged(devices, local), active_id), receivers));
}

/// The device that plays now stands first in the picker.
pub proof fn law_playing_device_first(
    devices: Seq<DeviceView>,
    local: Option<DeviceView>,
    active_id: Option<Seq<char>>,
    receivers: Seq<ReceiverView>,
)
    ensures
        playing_in_front(shown_devices(devices, local, active_id, receivers), active_id),
{
    let m = merged(devices, local);
    let p = |d: DeviceView| is_playing(d, active_id);
    let q = |d: DeviceView| !is_playing(d, active_id);
    let front = m.filter(p);
    let back = m.filter(q);
    let ordered = playing_first(m, active_id);
    assert(ordered == front + back);
    assert(playing_in_front(ordered, active_id)) by {
        assert forall|a: int, b: int| 0 <= a < b < ordered.len() && is_playing(#[trigger] ordered[b], active_id)
            implies is_playing(#[trigger] ordered[a], active_id) by {
            if b >= front.len() {
                assert(q(back[b - front.len()]));
            }
            assert(p(front[a]));
        }
    }
    let named = named_all(ordered, receivers);
    assert(playing_in_front(named, active_id)) by {
        assert forall|a: int, b: int| 0 <= a < b < named.len() && is_playing(#[trigger] named[b], active_id)
            implies is_playing(#[trigger] named[a], active_id) by {
            assert(named[a].id == ordered[a].id && named[b].id == ordered[b].id);
        }
    }
    lemma_distinct_ids_keeps_order(named, active_id);
}

/// When this computer is ready to play and has an identity, the picker shows
/// a device with that identity.
pub proof fn law_local_device_shown(
    devices: Seq<DeviceView>,
    local: DeviceView,
    active_id: Option<Seq<char>>,
    receivers: Seq<ReceiverView>,
)
    requires
        local.id is Some,
    ensures
        has_id(shown_devices(devices, Some(local), active_id, receivers), local.id),
{
    let m = merged(devices, Some(local));
    assert(has_id(m, local.id)) by {
        if !has_id(devices, local.id) {
            assert(m[0] == local);
        }
    }
    let i = choose|i: int| 0 <= i < m.len() && (#[trigger] m[i]).id == local.id;
    let p = |d: DeviceView| is_playing(d, active_id);
    let q = |d: DeviceView| !is_playing(d, active_id);
    let front = m.filter(p);
    let back = m.filter(q);
    let ordered = playing_first(m, active_id);
    assert(has_id(ordered, local.id)) by {
        if p(m[i]) {
            assert(front.contains(m[i]));
            let k = choose|k: int| 0 <= k < front.len() && front[k] == m[i];
            assert(ordered[k] == m[i]);
        } else {
            assert(back.contains(m[i]));
            let k = choose|k: int| 0 <= k < back.len() && back[k] == m[i];
            assert(ordered[front.len() + k] == m[i]);
        }
    }
    let named = named_all(ordered, receivers);
    assert(has_id(named, local.id)) by {
        let k = choose|k: int| 0 <= k < ordered.len() && (#[trigger] ordered[k]).id == local.id;
        assert(named[k].id == local.id);
    }
    lemma_distinct_ids_keeps_ids(named, local.id);
}

/// A receiver on the network is offered for activation exactly when none of
/// the shown devices stands for it.
pub proof fn law_receiver_offered_iff_unlisted(receivers: Seq<ReceiverView>, shown: Seq<DeviceView>, i: int)
    requires
        0 <= i < receivers.len(),
    ensures
        unlisted(receivers, shown).contains(receivers[i]) <==> !listed_in(receivers[i], shown),
{
    let p = |r: ReceiverView| !listed_in(r, shown);
    let waiting = receivers.filter(p);
    if waiting.contains(receivers[i]) {
        let k = choose|k: int| 0 <= k < waiting.len() && waiting[k] == receivers[i];
        assert(p(waiting[k]));
    }
}

/// The icon of a device kind does not depend on the case of its ASCII letters.
pub proof fn law_icon_ignores_case(a: Seq<char>, b: Seq<char>)
    requires
        lower_chars(a) == lower_chars(b),
    ensures
        icon_for_kind(a) == icon_for_kind(b),
{
}

/// This computer's entry always says that it is this computer, and never says
/// it twice.
pub proof fn law_this_computer_marked_once(name: Seq<char>)
    ensures
        occurs_in("this computer"@, shown_name(name, true)),
        shown_name(shown_name(name, true), true) == shown_name(name, true),
{
    reveal_strlit("this computer");
    reveal_strlit(" (this computer)");
    if !occurs_in("this computer"@, name) {
        let marked = name + " (this computer)"@;
        let i: int = name.len() as int + 2;
        assert(marked.subrange(i, i + 13) =~= "this computer"@);
    }
}


/// A receiver without identity is matched by its whole name: a device lists it
/// exactly when the device's name equals the receiver's.
pub proof fn law_receiver_without_identity_matched_by_whole_name(device: DeviceView, receiver: ReceiverView)
    requires
        receiver.device_id is None,
    ensures
        lists(device, receiver) <==> device.name == receiver.name,
{
}

/// A receiver with an identity is matched by identity alone: a device lists it
/// exactly when the device has that identity, whatever the names.
pub proof fn law_receiver_with_identity_matched_by_identity(device: DeviceView, receiver: ReceiverView)
    requires
        receiver.device_id is Some,
    ensures
        lists(device, receiver) <==> device.id == receiver.device_id,
{
}

/// A device whose identity `receivers[j]` is the first to advertise takes
/// that receiver's name, whatever else is true of the device.
pub proof fn law_naming_takes_first_advertisers_name(device: DeviceView, receivers: Seq<ReceiverView>, j: int)
    requires
        device.id is Some,
        0 <= j < receivers.len(),
        receivers[j].device_id == device.id,
        forall|k: int| 0 <= k < j ==> receivers[k].device_id != device.id,
    ensures
        renamed(device, receivers) == (DeviceView { name: receivers[j].name, ..device }),
{
    let id = device.id->0;
    assert(crate::picker::first_advertiser(receivers, id, j));
    let c = choose|c: int| crate::picker::first_advertiser(receivers, id, c);
    assert(c == j);
}

/// A device without identity, or whose identity no receiver advertises, keeps
/// its name.
pub proof fn law_unadvertised_device_keeps_its_name(device: DeviceView, receivers: Seq<ReceiverView>)
    requires
        device.id is None || forall|k: int| 0 <= k < receivers.len() ==> receivers[k].device_id != device.id,
    ensures
        renamed(device, receivers) == device,
{
}

/// Whether a device plays depends on its identity alone: it plays exactly when
/// its identity is the playing one.
pub proof fn law_playing_is_having_the_playing_identity(device: DeviceView, active_id: Option<Seq<char>>)
    ensures
        is_playing(device, active_id) <==> device.id == active_id,
{
}

/// The entry of the playing device says so, whether or not it is this
/// computer and whether or not it is restricted.
pub proof fn law_playing_entry_says_listening(device: DeviceView, is_local: bool)
    ensures
        status_line(device, true, is_local) == "Listening on this device"@,
{
}

/// A restricted device that does not play says that it is restricted.
pub proof fn law_idle_restricted_entry_says_restricted(device: DeviceView, is_local: bool)
    requires
        device.is_restricted,
    ensures
        status_line(device, false, is_local) == "Restricted"@,
{
}

/// This computer, when it neither plays nor is restricted, offers to play here.
pub proof fn law_idle_local_entry_offers_play_here(device: DeviceView)
    requires
        !device.is_restricted,
    ensures
        status_line(device, false, true) == "Play here"@,
{
}

/// Any other entry shows the device's kind with spaces for underscores.
pub proof fn law_other_entry_shows_the_kind(device: DeviceView)
    requires
        !device.is_restricted,
    ensures
        status_line(device, false, false).len() == device.kind.len(),
        forall|i: int| 0 <= i < device.kind.len() ==> #[trigger] status_line(device, false, false)[i]
            == if device.kind[i] == '_' { ' ' } else { device.kind[i] },
{
}

/// Lowering turns each ASCII capital into the small letter 32 code points
/// further, and leaves every other character as it is.
pub proof fn law_lowering_is_ascii_lowercasing(c: char)
    ensures
        'A' <= c <= 'Z' ==> 'a' <= ascii_lower(c) <= 'z' && ascii_lower(c) as int == c as int + 32,
        !('A' <= c <= 'Z') ==> ascii_lower(c) == c,
{
    if 'A' <= c <= 'Z' {
        let small = ascii_lower(c);
        assert(small == ((c as int) + 32) as char);
        assert((c as int) + 32 <= 0x7a);
    }
}

/// A kind written with some of its small letters capitalized gets the icon of
/// the kind in small letters.
pub proof fn law_capitalized_kind_gets_the_icon_of_its_small_form(kind: Seq<char>, small: Seq<char>)
    requires
        kind.len() == small.len(),
        forall|i: int| 0 <= i < kind.len() ==>
            (#[trigger] kind[i] == small[i] && !('A' <= small[i] <= 'Z'))
            || ('A' <= kind[i] <= 'Z' && small[i] as int == kind[i] as int + 32),
    ensures
        lower_chars(kind) == small,
        icon_for_kind(kind) == icon_for_lower_kind(small),
{
    assert forall|i: int| 0 <= i < kind.len() implies #[trigger] lower_chars(kind)[i] == small[i] by {
        law_lowering_is_ascii_lowercasing(kind[i]);
    }
    assert(lower_chars(kind) =~= small);
}

/// The set-top-box kind, however capitalized, is drawn as a monitor.
pub proof fn law_set_top_box_in_capitals_is_a_monitor()
    ensures
        icon_for_kind("STB"@) == Icon::Monitor,
        icon_for_kind("Stb"@) == Icon::Monitor,
{
    reveal_strlit("STB");
    reveal_strlit("Stb");
    reveal_strlit("stb");
    reveal_strlit("computer");
    reveal_strlit("smartphone");
    reveal_strlit("tablet");
    reveal_strlit("tv");
    reveal_strlit("game_console");
    reveal_strlit("automobile");
    reveal_strlit("cast_video");
    reveal_strlit("cast_audio");
    reveal_strlit("castaudio");
    reveal_strlit("castvideo");
    reveal_strlit("smartwatch");
    reveal_strlit("avr");
    law_capitalized_kind_gets_the_icon_of_its_small_form("STB"@, "stb"@);
    law_capitalized_kind_gets_the_icon_of_its_small_form("Stb"@, "stb"@);
    assert("stb"@ != "avr"@) by {
        assert("stb"@[0] != "avr"@[0]);
    }
    assert(icon_for_lower_kind("stb"@) == Icon::Monitor);
}


/// The icon of each kind that Spotify names, in small letters.
pub proof fn law_icon_of_each_named_kind()
    ensures
        icon_for_lower_kind("computer"@) == Icon::Laptop,
        icon_for_lower_kind("smartphone"@) == Icon::Smartphone,
        icon_for_lower_kind("tablet"@) == Icon::Tablet,
        icon_for_lower_kind("tv"@) == Icon::Tv,
        icon_for_lower_kind("game_console"@) == Icon::Gamepad,
        icon_for_lower_kind("automobile"@) == Icon::Car,
        icon_for_lower_kind("cast_video"@) == Icon::Cast,
        icon_for_lower_kind("cast_audio"@) == Icon::Cast,
        icon_for_lower_kind("castaudio"@) == Icon::Cast,
        icon_for_lower_kind("castvideo"@) == Icon::Cast,
        icon_for_lower_kind("smartwatch"@) == Icon::Watch,
        icon_for_lower_kind("avr"@) == Icon::Monitor,
        icon_for_lower_kind("stb"@) == Icon::Monitor,
        icon_for_lower_kind("audio_dongle"@) == Icon::Monitor,
        icon_for_lower_kind("speaker"@) == Icon::Speaker,
{
    reveal_strlit("computer");
    reveal_strlit("smartphone");
    reveal_strlit("tablet");
    reveal_strlit("tv");
    reveal_strlit("game_console");
    reveal_strlit("automobile");
    reveal_strlit("cast_video");
    reveal_strlit("cast_audio");
    reveal_strlit("castaudio");
    reveal_strlit("castvideo");
    reveal_strlit("smartwatch");
    reveal_strlit("avr");
    reveal_strlit("stb");
    reveal_strlit("audio_dongle");
    reveal_strlit("speaker");
    assert("computer"@.len() == 8);
    assert("smartphone"@.len() == 10);
    assert("tablet"@.len() == 6);
    assert("tv"@.len() == 2);
    assert("game_console"@.len() == 12);
    assert("automobile"@.len() == 10);
    assert("cast_video"@.len() == 10);
    assert("cast_audio"@.len() == 10);
    assert("castaudio"@.len() == 9);
    assert("castvideo"@.len() == 9);
    assert("smartwatch"@.len() == 10);
    assert("avr"@.len() == 3);
    assert("stb"@.len() == 3);
    assert("audio_dongle"@.len() == 12);
    assert("speaker"@.len() == 7);
    assert("automobile"@ != "smartphone"@) by {
        assert("automobile"@[0] != "smartphone"@[0]);
    }
    assert("cast_video"@ != "smartphone"@) by {
        assert("cast_video"@[0] != "smartphone"@[0]);
    }
    assert("cast_video"@ != "automobile"@) by {
        assert("cast_video"@[0] != "automobile"@[0]);
    }
    assert("cast_audio"@ != "smartphone"@) by {
        assert("cast_audio"@[0] != "smartphone"@[0]);
    }
    assert("cast_audio"@ != "automobile"@) by {
        assert("cast_audio"@[0] != "automobile"@[0]);
    }
    assert("cast_audio"@ != "cast_video"@) by {
        assert("cast_audio"@[5] != "cast_video"@[5]);
    }
    assert("castvideo"@ != "castaudio"@) by {
        assert("castvideo"@[4] != "castaudio"@[4]);
    }
    assert("smartwatch"@ != "smartphone"@) by {
        assert("smartwatch"@[5] != "smartphone"@[5]);
    }
    assert("smartwatch"@ != "automobile"@) by {
        assert("smartwatch"@[0] != "automobile"@[0]);
    }
    assert("smartwatch"@ != "cast_video"@) by {
        assert("smartwatch"@[0] != "cast_video"@[0]);
    }
    assert("smartwatch"@ != "cast_audio"@) by {
        assert("smartwatch"@[0] != "cast_audio"@[0]);
    }
    assert("stb"@ != "avr"@) by {
        assert("stb"@[0] != "avr"@[0]);
    }
    assert("audio_dongle"@ != "game_console"@) by {
        assert("audio_dongle"@[0] != "game_console"@[0]);
    }
}

} // verus!
