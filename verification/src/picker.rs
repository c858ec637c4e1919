//! Matching receivers against the account's devices.
use vstd::prelude::*;
use crate::model::{Device, DeviceView, Receiver, ReceiverView, device_views, receiver_views, opt_eq, opt_view};

verus! {

/// Whether `device` is the account's entry for `receiver`: by identity when
/// the receiver advertises one, else by name.
pub open spec fn lists(device: DeviceView, receiver: ReceiverView) -> bool {
    match receiver.device_id {
        Some(id) => device.id == Some(id),
        None => device.name == receiver.name,
    }
}

/// Whether some device of `devices` is the entry for `receiver`.
pub open spec fn listed_in(receiver: ReceiverView, devices: Seq<DeviceView>) -> bool {
    exists|i: int| 0 <= i < devices.len() && lists(#[trigger] devices[i], receiver)
}

/// Whether the account already lists `receiver` among `devices`.
pub fn receiver_is_listed(receiver: &Receiver, devices: &[Device]) -> (res: bool)
    ensures
        res == listed_in(receiver@, device_views(devices@)),
        receiver.device_id is None ==> (res <==> exists|i: int|
            0 <= i < devices@.len() && (#[trigger] devices@[i]).name@ == receiver.name@),
        receiver.device_id is Some ==> (res <==> exists|i: int|
            0 <= i < devices@.len() && opt_view((#[trigger] devices@[i]).id) == opt_view(receiver.device_id)),
{
    let mut i: usize = 0;
    while i < devices.len()
        invariant
            0 <= i <= devices@.len(),
            forall|k: int| 0 <= k < i ==> !lists(#[trigger] device_views(devices@)[k], receiver@),
        decreases devices@.len() - i,
    {
        let device = &devices[i];
        let hit = match &receiver.device_id {
            Some(_) => opt_eq(&device.id, &receiver.device_id),
            None => device.name == receiver.name,
        };
        assert(device_views(devices@)[i as int] == devices@[i as int]@);
        if hit {
            assert(lists(device_views(devices@)[i as int], receiver@));
            assert(lists(devices@[i as int]@, receiver@));
            return true;
        }
        i = i + 1;
    }
    proof {
        assert forall|k: int| 0 <= k < devices@.len() implies !lists((#[trigger] devices@[k])@, receiver@) by {
            assert(device_views(devices@)[k] == devices@[k]@);
        }
    }
    false
}

/// `j` is the first receiver of `receivers` that advertises the identity `id`.
pub open spec fn first_advertiser(receivers: Seq<ReceiverView>, id: Seq<char>, j: int) -> bool {
    &&& 0 <= j < receivers.len()
    &&& receivers[j].device_id == Some(id)
    &&& forall|k: int| 0 <= k < j ==> receivers[k].device_id != Some(id)
}

/// `device` with the name that the network gives it: a device with an identity
/// takes the name of the first receiver that advertises that identity.
pub open spec fn renamed(device: DeviceView, receivers: Seq<ReceiverView>) -> DeviceView {
    match device.id {
        Some(id) => if exists|j: int| first_advertiser(receivers, id, j) {
            let j = choose|j: int| first_advertiser(receivers, id, j);
            DeviceView { name: receivers[j].name, ..device }
        } else {
            device
        },
        None => device,
    }
}

/// Gives each device that a receiver on the network advertises the receiver's
/// name. Nothing else of any device changes.
pub fn name_devices(devices: &mut [Device], receivers: &[Receiver])
    ensures
        final(devices)@.len() == old(devices)@.len(),
        forall|i: int| 0 <= i < old(devices)@.len() ==>
            #[trigger] final(devices)@[i]@ == renamed(old(devices)@[i]@, receiver_views(receivers@)),
        forall|i: int, j: int|
            0 <= i < old(devices)@.len() && 0 <= j < receivers@.len()
            && old(devices)@[i].id is Some
            && opt_view(#[trigger] receivers@[j].device_id) == opt_view(old(devices)@[i].id)
            && (forall|k: int| 0 <= k < j ==> opt_view(receivers@[k].device_id) != opt_view(old(devices)@[i].id))
            ==> (#[trigger] final(devices)@[i]).name@ == receivers@[j].name@,
        forall|i: int| 0 <= i < old(devices)@.len() ==> {
            &&& opt_view((#[trigger] final(devices)@[i]).id) == opt_view(old(devices)@[i].id)
            &&& final(devices)@[i].is_active == old(devices)@[i].is_active
            &&& final(devices)@[i].is_restricted == old(devices)@[i].is_restricted
            &&& final(devices)@[i].volume_percent == old(devices)@[i].volume_percent
            &&& final(devices)@[i].supports_volume == old(devices)@[i].supports_volume
            &&& final(devices)@[i].kind@ == old(devices)@[i].kind@
        },
        forall|i: int| 0 <= i < old(devices)@.len()
            && (old(devices)@[i].id is None || forall|k: int| 0 <= k < receivers@.len()
                ==> opt_view(#[trigger] receivers@[k].device_id) != opt_view(old(devices)@[i].id))
            ==> (#[trigger] final(devices)@[i]).name@ == old(devices)@[i].name@,
{
    let ghost rs = receiver_views(receivers@);
    let mut i: usize = 0;
    while i < devices.len()
        invariant
            0 <= i <= devices@.len(),
            devices@.len() == old(devices)@.len(),
            rs == receiver_views(receivers@),
            forall|k: int| 0 <= k < i ==> #[trigger] devices@[k]@ == renamed(old(devices)@[k]@, rs),
            forall|k: int| i <= k < devices@.len() ==> #[trigger] devices@[k] == old(devices)@[k],
        decreases devices@.len() - i,
    {
        if devices[i].id.is_some() {
            let mut j: usize = 0;
            let mut found: Option<usize> = None;
            while j < receivers.len()
                invariant_except_break
                    found is None,
                invariant
                    0 <= j <= receivers@.len(),
                    rs == receiver_views(receivers@),
                    i < devices@.len(),
                    devices@[i as int].id is Some,
                    forall|k: int| 0 <= k < j ==>
                        (#[trigger] rs[k]).device_id != Some(devices@[i as int]@.id->0),
                ensures
                    found is None ==> forall|k: int| 0 <= k < rs.len() ==>
                        (#[trigger] rs[k]).device_id != Some(devices@[i as int]@.id->0),
                    found matches Some(f) ==> first_advertiser(rs, devices@[i as int]@.id->0, f as int),
                decreases receivers@.len() - j,
            {
                assert(rs[j as int] == receivers@[j as int]@);
                if opt_eq(&receivers[j].device_id, &devices[i].id) {
                    found = Some(j);
                    break;
                }
                j = j + 1;
            }
            match found {
                Some(j) => {
                    let ghost id = devices@[i as int]@.id->0;
                    let ghost chosen = choose|c: int| first_advertiser(rs, id, c);
                    assert(chosen == j as int);
                    let name = receivers[j].name.clone();
                    devices[i].name = name;
                },
                None => {
                    assert(devices@[i as int]@ == renamed(old(devices)@[i as int]@, rs));
                },
            }
        }
        i = i + 1;
    }
    proof {
        let rs = receiver_views(receivers@);
        assert forall|k: int| 0 <= k < old(devices)@.len() implies {
            &&& opt_view((#[trigger] devices@[k]).id) == opt_view(old(devices)@[k].id)
            &&& devices@[k].is_active == old(devices)@[k].is_active
            &&& devices@[k].is_restricted == old(devices)@[k].is_restricted
            &&& devices@[k].volume_percent == old(devices)@[k].volume_percent
            &&& devices@[k].supports_volume == old(devices)@[k].supports_volume
            &&& devices@[k].kind@ == old(devices)@[k].kind@
        } by {
            assert(devices@[k]@ == renamed(old(devices)@[k]@, rs));
            crate::laws::law_naming_changes_only_the_name(old(devices)@[k]@, rs);
        }
        assert forall|k: int, j: int|
            0 <= k < old(devices)@.len() && 0 <= j < receivers@.len()
            && old(devices)@[k].id is Some
            && opt_view(#[trigger] receivers@[j].device_id) == opt_view(old(devices)@[k].id)
            && (forall|m: int| 0 <= m < j ==> opt_view(receivers@[m].device_id) != opt_view(old(devices)@[k].id))
            implies (#[trigger] devices@[k]).name@ == receivers@[j].name@ by {
            assert forall|m: int| 0 <= m < j implies rs[m].device_id != old(devices)@[k]@.id by {
                assert(rs[m] == receivers@[m]@);
            }
            assert(rs[j] == receivers@[j]@);
            assert(devices@[k]@ == renamed(old(devices)@[k]@, rs));
            crate::laws::law_naming_takes_first_advertisers_name(old(devices)@[k]@, rs, j);
        }
        assert forall|k: int| 0 <= k < old(devices)@.len()
            && (old(devices)@[k].id is None || forall|m: int| 0 <= m < receivers@.len()
                ==> opt_view(#[trigger] receivers@[m].device_id) != opt_view(old(devices)@[k].id))
            implies (#[trigger] devices@[k]).name@ == old(devices)@[k].name@ by {
            if old(devices)@[k].id is Some {
                assert forall|m: int| 0 <= m < rs.len() implies rs[m].device_id != old(devices)@[k]@.id by {
                    assert(rs[m] == receivers@[m]@);
                }
            }
            assert(devices@[k]@ == renamed(old(devices)@[k]@, rs));
            crate::laws::law_unadvertised_device_keeps_its_name(old(devices)@[k]@, rs);
        }
    }
}

} // verus!
