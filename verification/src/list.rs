//! The entries of the device picker: the account's devices, the local
//! computer, and the receivers on the network that the account does not list.
use vstd::prelude::*;
use crate::model::{Device, DeviceView, Receiver, ReceiverView, device_views, receiver_views, opt_view, opt_eq};
use crate::picker::{listed_in, renamed, name_devices, receiver_is_listed};
use crate::text::with_this_computer;

verus! {

/// Whether some device of `devices` has the identity `id`.
pub open spec fn has_id(devices: Seq<DeviceView>, id: Option<Seq<char>>) -> bool {
    exists|i: int| 0 <= i < devices.len() && (#[trigger] devices[i]).id == id
}

/// `devices` with the local computer in front, when it is given with an
/// identity that none of `devices` has.
pub open spec fn merged(devices: Seq<DeviceView>, local: Option<DeviceView>) -> Seq<DeviceView> {
    match local {
        Some(l) => if l.id is Some && !has_id(devices, l.id) {
            seq![l] + devices
        } else {
            devices
        },
        None => devices,
    }
}

/// This computer as a device of the picker: named after `device_name` and
/// marked as this computer, a computer whose volume can be set and which is
/// never restricted.
pub fn local_device(id: &String, device_name: &str, is_active: bool, volume_percent: u32) -> (device: Device)
    ensures
        device@ == (DeviceView {
            id: Some(id@),
            name: device_name@ + " (this computer)"@,
            is_active,
            is_restricted: false,
            volume_percent: Some(volume_percent),
            supports_volume: Some(true),
            kind: "computer"@,
        }),
{
    Device {
        id: Some(id.clone()),
        name: with_this_computer(device_name),
        is_active,
        is_restricted: false,
        volume_percent: Some(volume_percent),
        supports_volume: Some(true),
        kind: String::from_str("computer"),
    }
}

/// Puts the local computer in front of the account's devices unless the
/// account already lists a device with its identity; a local computer
/// without an identity is not added.
pub fn with_local_device(devices: Vec<Device>, local: Option<Device>) -> (res: Vec<Device>)
    ensures
        device_views(res@) == merged(device_views(devices@), match local {
            Some(l) => Some(l@),
            None => None,
        }),
{
    let ghost dv = device_views(devices@);
    let ghost given = local;
    let mut list = devices;
    match local {
        Some(l) => {
            if l.id.is_none() {
                return list;
            }
            let mut i: usize = 0;
            while i < list.len()
                invariant
                    0 <= i <= list@.len(),
                    dv == device_views(list@),
                    dv == device_views(devices@),
                    given == Some(l),
                    given == local,
                    l.id is Some,
                    forall|k: int| 0 <= k < i ==> (#[trigger] dv[k]).id != l@.id,
                decreases list@.len() - i,
            {
                if opt_eq(&list[i].id, &l.id) {
                    assert(dv[i as int].id == l@.id);
                    assert(has_id(dv, l@.id));
                    return list;
                }
                i = i + 1;
            }
            let ghost lv = l@;
            list.insert(0, l);
            assert(device_views(list@) =~= seq![lv] + dv);
            list
        },
        None => list,
    }
}

/// Whether `device` is the device that plays now.
pub open spec fn is_playing(device: DeviceView, active_id: Option<Seq<char>>) -> bool {
    device.id == active_id
}

/// `devices` with the device that plays now moved in front, the order
/// otherwise kept. A device without identity counts as playing when no
/// device is known to play.
pub open spec fn playing_first(devices: Seq<DeviceView>, active_id: Option<Seq<char>>) -> Seq<DeviceView> {
    devices.filter(|d: DeviceView| is_playing(d, active_id))
        + devices.filter(|d: DeviceView| !is_playing(d, active_id))
}

/// Orders the devices as the picker shows them: the one that plays now
/// first, the others in their order.
pub fn active_first(devices: &Vec<Device>, active_id: &Option<String>) -> (res: Vec<Device>)
    ensures
        device_views(res@) == playing_first(device_views(devices@), opt_view(*active_id)),
        device_views(res@) == device_views(devices@).filter(|d: DeviceView| d.id == opt_view(*active_id))
            + device_views(devices@).filter(|d: DeviceView| d.id != opt_view(*active_id)),
{
    let ghost dv = device_views(devices@);
    let ghost a = opt_view(*active_id);
    let ghost p = |d: DeviceView| is_playing(d, a);
    let ghost q = |d: DeviceView| !is_playing(d, a);
    let mut front: Vec<Device> = Vec::new();
    let mut back: Vec<Device> = Vec::new();
    let mut i: usize = 0;
    while i < devices.len()
        invariant
            0 <= i <= devices@.len(),
            dv == device_views(devices@),
            a == opt_view(*active_id),
            p == (|d: DeviceView| is_playing(d, a)),
            q == (|d: DeviceView| !is_playing(d, a)),
            device_views(front@) == dv.take(i as int).filter(p),
            device_views(back@) == dv.take(i as int).filter(q),
        decreases devices@.len() - i,
    {
        reveal_with_fuel(Seq::<_>::filter, 1);
        let d = devices[i].clone();
        assert(dv.take(i + 1).drop_last() == dv.take(i as int));
        assert(dv[i as int] == d@);
        if opt_eq(&d.id, active_id) {
            front.push(d);
            assert(device_views(front@) =~= dv.take(i + 1).filter(p));
            assert(device_views(back@) =~= dv.take(i + 1).filter(q));
        } else {
            back.push(d);
            assert(device_views(front@) =~= dv.take(i + 1).filter(p));
            assert(device_views(back@) =~= dv.take(i + 1).filter(q));
        }
        i = i + 1;
    }
    assert(dv.take(devices@.len() as int) == dv);
    let ghost f = front@;
    let ghost b = back@;
    front.append(&mut back);
    assert(device_views(front@) =~= device_views(f) + device_views(b));
    assert((|d: DeviceView| d.id == a) =~= p);
    assert((|d: DeviceView| d.id != a) =~= q);
    front
}


/// Whether `devices[i]` is the first of `devices` with its identity; a device
/// without identity always is.
pub open spec fn first_with_its_id(devices: Seq<DeviceView>, i: int) -> bool {
    devices[i].id is None || forall|j: int| 0 <= j < i ==> #[trigger] devices[j].id != devices[i].id
}

/// `devices` without the devices whose identity an earlier device already has.
pub open spec fn distinct_ids(devices: Seq<DeviceView>) -> Seq<DeviceView>
    decreases devices.len(),
{
    if devices.len() == 0 {
        devices
    } else {
        let rest = distinct_ids(devices.drop_last());
        if first_with_its_id(devices, devices.len() - 1) {
            rest.push(devices.last())
        } else {
            rest
        }
    }
}

/// Keeps the first device of each identity and every device without one, in
/// their order.
pub fn drop_repeated_ids(devices: &Vec<Device>) -> (res: Vec<Device>)
    ensures
        device_views(res@) == distinct_ids(device_views(devices@)),
{
    let ghost dv = device_views(devices@);
    let mut out: Vec<Device> = Vec::new();
    let mut i: usize = 0;
    while i < devices.len()
        invariant
            0 <= i <= devices@.len(),
            dv == device_views(devices@),
            device_views(out@) == distinct_ids(dv.take(i as int)),
        decreases devices@.len() - i,
    {
        let ghost pre = dv.take(i + 1);
        assert(pre.drop_last() == dv.take(i as int));
        let mut first = true;
        if devices[i].id.is_some() {
            let mut j: usize = 0;
            while j < i
                invariant
                    0 <= j <= i < devices@.len(),
                    dv == device_views(devices@),
                    pre == dv.take(i + 1),
                    dv[i as int].id is Some,
                    first == forall|k: int| 0 <= k < j ==> #[trigger] pre[k].id != pre[i as int].id,
                decreases i - j,
            {
                assert(pre[j as int] == devices@[j as int]@);
                assert(pre[i as int] == devices@[i as int]@);
                if opt_eq(&devices[j].id, &devices[i].id) {
                    first = false;
                    assert(pre[j as int].id == pre[i as int].id);
                }
                j = j + 1;
            }
        }
        assert(first == first_with_its_id(pre, i as int));
        if first {
            out.push(devices[i].clone());
            assert(device_views(out@) =~= distinct_ids(dv.take(i as int)).push(dv[i as int]));
        }
        i = i + 1;
    }
    assert(dv.take(devices@.len() as int) == dv);
    out
}

/// `devices` with each device named as the network names it.
pub open spec fn named_all(devices: Seq<DeviceView>, receivers: Seq<ReceiverView>) -> Seq<DeviceView> {
    devices.map_values(|d: DeviceView| renamed(d, receivers))
}

/// The receivers of `receivers` that no device of `devices` lists, in order.
pub open spec fn unlisted(receivers: Seq<ReceiverView>, devices: Seq<DeviceView>) -> Seq<ReceiverView> {
    receivers.filter(|r: ReceiverView| !listed_in(r, devices))
}

/// The receivers on the network that the account does not list yet.
pub fn waiting_receivers(receivers: &Vec<Receiver>, devices: &Vec<Device>) -> (res: Vec<Receiver>)
    ensures
        receiver_views(res@) == unlisted(receiver_views(receivers@), device_views(devices@)),
{
    let ghost rv = receiver_views(receivers@);
    let ghost dv = device_views(devices@);
    let ghost p = |r: ReceiverView| !listed_in(r, dv);
    let mut out: Vec<Receiver> = Vec::new();
    let mut i: usize = 0;
    while i < receivers.len()
        invariant
            0 <= i <= receivers@.len(),
            rv == receiver_views(receivers@),
            dv == device_views(devices@),
            p == (|r: ReceiverView| !listed_in(r, dv)),
            receiver_views(out@) == rv.take(i as int).filter(p),
        decreases receivers@.len() - i,
    {
        reveal_with_fuel(Seq::<_>::filter, 1);
        assert(rv.take(i + 1).drop_last() == rv.take(i as int));
        assert(rv[i as int] == receivers@[i as int]@);
        if !receiver_is_listed(&receivers[i], devices.as_slice()) {
            out.push(receivers[i].clone());
        }
        assert(receiver_views(out@) =~= rv.take(i + 1).filter(p));
        i = i + 1;
    }
    assert(rv.take(receivers@.len() as int) == rv);
    out
}

/// The devices that the picker shows, in order: the account's devices with the
/// local computer added, the playing device first, named as the network names
/// them, each identity once.
pub open spec fn shown_devices(
    devices: Seq<DeviceView>,
    local: Option<DeviceView>,
    active_id: Option<Seq<char>>,
    receivers: Seq<ReceiverView>,
) -> Seq<DeviceView> {
    distinct_ids(named_all(playing_first(merged(devices, local), active_id), receivers))
}

/// The entries of the device picker.
pub struct DeviceList {
    /// The devices to offer, in order.
    pub devices: Vec<Device>,
    /// The receivers on the network that none of `devices` stands for.
    pub waiting: Vec<Receiver>,
}

/// Builds the picker's entries from the account's devices, the local computer
/// (given when it is ready for playback), the identity of the device that
/// plays now, and the receivers announced on the network.
pub fn device_list(
    devices: Vec<Device>,
    local: Option<Device>,
    active_id: &Option<String>,
    receivers: &Vec<Receiver>,
) -> (res: DeviceList)
    ensures
        device_views(res.devices@) == shown_devices(
            device_views(devices@),
            match local {
                Some(l) => Some(l@),
                None => None,
            },
            opt_view(*active_id),
            receiver_views(receivers@),
        ),
        receiver_views(res.waiting@) == unlisted(receiver_views(receivers@), device_views(res.devices@)),
{
    let merged_list = with_local_device(devices, local);
    let mut ordered = active_first(&merged_list, active_id);
    let ghost before = ordered@;
    name_devices(ordered.as_mut_slice(), receivers.as_slice());
    assert(device_views(ordered@) =~= named_all(device_views(before), receiver_views(receivers@)));
    let shown = drop_repeated_ids(&ordered);
    let waiting = waiting_receivers(receivers, &shown);
    DeviceList { devices: shown, waiting }
}

} // verus!
