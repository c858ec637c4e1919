use fastpotify::model::{Device, IpAddress, Receiver};
use fastpotify::picker::{name_devices, receiver_is_listed};

#[test]
fn a_receivers_identity_matches_even_when_its_advertised_name_differs() {
    let receiver = Receiver {
        name: "SpotifyConnect".into(),
        device_id: Some("living-room".into()),
        address: IpAddress::V4([127, 0, 0, 1]),
        port: 80,
        path: "/".into(),
    };
    let mut device = Device {
        id: Some("living-room".into()),
        name: "Living Room".into(),
        ..Default::default()
    };
    assert!(receiver_is_listed(&receiver, &[device.clone()]));
    let mut named = [Device {
        name: "unnamed".into(),
        ..device.clone()
    }];
    name_devices(&mut named, std::slice::from_ref(&receiver));
    assert_eq!(named[0].name, receiver.name);
    assert_eq!(
        named[0].id, device.id,
        "renaming preserves the transfer target"
    );
    device.id = Some("other-room".into());
    device.name = receiver.name.clone();
    assert!(
        !receiver_is_listed(&receiver, &[device]),
        "two identities may have the same name"
    );
}
