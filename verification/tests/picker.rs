use fastpotify::icons::device_icon;
use fastpotify::list::{active_first, device_list, drop_repeated_ids, local_device, waiting_receivers, with_local_device};
use fastpotify::model::{Device, Icon, IpAddress, LocalPlayback, Receiver};
use fastpotify::picker::{name_devices, receiver_is_listed};
use fastpotify::rows::{device_row, nothing_found, playback_setup_row, receiver_row};
use fastpotify::text::{contains_text, underscores_to_spaces, with_this_computer};

fn device(id: Option<&str>, name: &str, kind: &str) -> Device {
    Device {
        id: id.map(|s| s.to_string()),
        name: name.to_string(),
        kind: kind.to_string(),
        ..Default::default()
    }
}

fn receiver(name: &str, id: Option<&str>) -> Receiver {
    Receiver {
        name: name.to_string(),
        device_id: id.map(|s| s.to_string()),
        address: IpAddress::V6([0, 0, 0, 0, 0, 0, 0, 0, 0, 0, 0, 0, 0, 0, 0, 1]),
        port: 4070,
        path: "/zc".to_string(),
    }
}

fn ids(devices: &[Device]) -> Vec<Option<String>> {
    devices.iter().map(|d| d.id.clone()).collect()
}

fn names(devices: &[Device]) -> Vec<String> {
    devices.iter().map(|d| d.name.clone()).collect()
}

#[test]
fn icons_follow_the_kind_whatever_its_case() {
    assert_eq!(device_icon("computer"), Icon::Laptop);
    assert_eq!(device_icon("Computer"), Icon::Laptop);
    assert_eq!(device_icon("SMARTPHONE"), Icon::Smartphone);
    assert_eq!(device_icon("Tablet"), Icon::Tablet);
    assert_eq!(device_icon("TV"), Icon::Tv);
    assert_eq!(device_icon("Game_Console"), Icon::Gamepad);
    assert_eq!(device_icon("automobile"), Icon::Car);
    assert_eq!(device_icon("cast_video"), Icon::Cast);
    assert_eq!(device_icon("CAST_AUDIO"), Icon::Cast);
    assert_eq!(device_icon("CastAudio"), Icon::Cast);
    assert_eq!(device_icon("castvideo"), Icon::Cast);
    assert_eq!(device_icon("Smartwatch"), Icon::Watch);
    assert_eq!(device_icon("AVR"), Icon::Monitor);
    assert_eq!(device_icon("stb"), Icon::Monitor);
    assert_eq!(device_icon("Audio_Dongle"), Icon::Monitor);
}

#[test]
fn unknown_kinds_are_speakers() {
    assert_eq!(device_icon("speaker"), Icon::Speaker);
    assert_eq!(device_icon(""), Icon::Speaker);
    assert_eq!(device_icon("computers"), Icon::Speaker);
    assert_eq!(device_icon("cast audio"), Icon::Speaker);
    assert_eq!(device_icon("ÇOMPUTER"), Icon::Speaker);
}

#[test]
fn a_receiver_without_identity_is_matched_by_name() {
    let r = receiver("Kitchen", None);
    assert!(receiver_is_listed(&r, &[device(Some("x"), "Kitchen", "speaker")]));
    assert!(!receiver_is_listed(&r, &[device(Some("x"), "kitchen", "speaker")]));
    assert!(!receiver_is_listed(&r, &[]));
}

#[test]
fn a_receiver_with_identity_ignores_names() {
    let r = receiver("Kitchen", Some("k1"));
    assert!(!receiver_is_listed(&r, &[device(Some("k2"), "Kitchen", "speaker")]));
    assert!(!receiver_is_listed(&r, &[device(None, "Kitchen", "speaker")]));
    assert!(receiver_is_listed(&r, &[device(None, "a", "tv"), device(Some("k1"), "b", "tv")]));
}

#[test]
fn naming_takes_the_first_advertiser_and_skips_devices_without_identity() {
    let receivers = [
        receiver("First", Some("a")),
        receiver("Second", Some("a")),
        receiver("Other", Some("b")),
        receiver("Anon", None),
    ];
    let mut devices = [
        device(Some("a"), "old a", "speaker"),
        device(None, "Anon-ish", "speaker"),
        device(Some("c"), "old c", "speaker"),
        device(Some("b"), "old b", "tv"),
    ];
    name_devices(&mut devices, &receivers);
    assert_eq!(names(&devices), vec!["First", "Anon-ish", "old c", "Other"]);
    assert_eq!(
        ids(&devices),
        vec![Some("a".to_string()), None, Some("c".to_string()), Some("b".to_string())]
    );
    assert_eq!(devices[3].kind, "tv");
}

#[test]
fn naming_twice_is_naming_once() {
    let receivers = [receiver("Den", Some("d"))];
    let mut devices = [device(Some("d"), "x", "speaker"), device(Some("e"), "y", "speaker")];
    name_devices(&mut devices, &receivers);
    let once = names(&devices);
    name_devices(&mut devices, &receivers);
    assert_eq!(names(&devices), once);
    assert_eq!(once, vec!["Den", "y"]);
}

#[test]
fn the_local_computer_is_put_in_front_once() {
    let local = device(Some("me"), "Desk (this computer)", "computer");
    let list = with_local_device(vec![device(Some("a"), "A", "tv")], Some(local.clone()));
    assert_eq!(ids(&list), vec![Some("me".to_string()), Some("a".to_string())]);

    let list = with_local_device(vec![device(Some("a"), "A", "tv"), device(Some("me"), "Desk", "computer")], Some(local.clone()));
    assert_eq!(names(&list), vec!["A", "Desk"]);

    let list = with_local_device(vec![device(Some("a"), "A", "tv")], None);
    assert_eq!(names(&list), vec!["A"]);

    let nameless = device(None, "Desk", "computer");
    let list = with_local_device(vec![device(None, "B", "tv")], Some(nameless));
    assert_eq!(names(&list), vec!["B"]);
}

#[test]
fn the_playing_device_moves_to_the_front_keeping_the_rest_in_order() {
    let devices = vec![
        device(Some("a"), "A", "tv"),
        device(Some("b"), "B", "tv"),
        device(None, "N", "tv"),
        device(Some("c"), "C", "tv"),
    ];
    let ordered = active_first(&devices, &Some("c".to_string()));
    assert_eq!(names(&ordered), vec!["C", "A", "B", "N"]);
    let ordered = active_first(&devices, &None);
    assert_eq!(names(&ordered), vec!["N", "A", "B", "C"]);
    let ordered = active_first(&devices, &Some("zzz".to_string()));
    assert_eq!(names(&ordered), vec!["A", "B", "N", "C"]);
}

#[test]
fn repeated_identities_are_dropped_but_anonymous_devices_kept() {
    let devices = vec![
        device(Some("a"), "A1", "tv"),
        device(None, "N1", "tv"),
        device(Some("a"), "A2", "tv"),
        device(None, "N2", "tv"),
        device(Some("b"), "B", "tv"),
    ];
    let kept = drop_repeated_ids(&devices);
    assert_eq!(names(&kept), vec!["A1", "N1", "N2", "B"]);
}

#[test]
fn only_unlisted_receivers_wait() {
    let receivers = vec![receiver("Den", Some("d")), receiver("Hall", None), receiver("Attic", Some("z"))];
    let devices = vec![device(Some("d"), "Den", "speaker"), device(Some("q"), "Hall", "speaker")];
    let waiting = waiting_receivers(&receivers, &devices);
    let waiting_names: Vec<String> = waiting.iter().map(|r| r.name.clone()).collect();
    assert_eq!(waiting_names, vec!["Attic"]);
    assert_eq!(waiting[0].port, 4070);
    assert_eq!(waiting[0].path, "/zc");
}

#[test]
fn the_picker_list_combines_every_step() {
    let devices = vec![
        device(Some("tv"), "Telly", "tv"),
        device(Some("den"), "unnamed", "speaker"),
        device(Some("tv"), "Telly again", "tv"),
    ];
    let local = device(Some("me"), "Desk (this computer)", "computer");
    let receivers = vec![
        receiver("Den Speaker", Some("den")),
        receiver("Garden", Some("garden")),
        receiver("Telly", None),
    ];
    let list = device_list(devices, Some(local), &Some("den".to_string()), &receivers);
    assert_eq!(names(&list.devices), vec!["Den Speaker", "Desk (this computer)", "Telly"]);
    let waiting_names: Vec<String> = list.waiting.iter().map(|r| r.name.clone()).collect();
    assert_eq!(waiting_names, vec!["Garden"]);
    assert!(!nothing_found(&list, true));
}

#[test]
fn an_empty_picker_says_nothing_was_found_only_when_ready() {
    let list = device_list(vec![], None, &None, &vec![]);
    assert!(list.devices.is_empty() && list.waiting.is_empty());
    assert!(nothing_found(&list, true));
    assert!(!nothing_found(&list, false));
}

#[test]
fn rows_say_what_each_device_is() {
    let me = Some("me".to_string());
    let playing = Some("tv".to_string());

    let row = device_row(&device(Some("tv"), "Telly", "tv"), &me, &playing);
    assert_eq!(row.name, "Telly");
    assert_eq!(row.status, "Listening on this device");
    assert!(row.active && !row.is_local);
    assert_eq!(row.icon, Icon::Tv);
    assert_eq!(row.transfer_to, None);

    let row = device_row(&device(Some("me"), "Desk", "computer"), &me, &playing);
    assert_eq!(row.name, "Desk (this computer)");
    assert_eq!(row.status, "Play here");
    assert!(row.is_local && !row.active);
    assert_eq!(row.icon, Icon::Laptop);
    assert_eq!(row.transfer_to, Some("me".to_string()));

    let row = device_row(&device(Some("me"), "Desk (this computer)", "computer"), &me, &playing);
    assert_eq!(row.name, "Desk (this computer)");

    let mut restricted = device(Some("r"), "Work", "audio_dongle");
    restricted.is_restricted = true;
    let row = device_row(&restricted, &me, &playing);
    assert_eq!(row.status, "Restricted");

    let row = device_row(&device(Some("g"), "Car", "game_console"), &me, &playing);
    assert_eq!(row.status, "game console");
    assert_eq!(row.icon, Icon::Gamepad);

    let row = device_row(&device(None, "Ghost", "speaker"), &None, &None);
    assert!(!row.active && !row.is_local);
    assert_eq!(row.transfer_to, None);
    assert_eq!(row.status, "speaker");
}

#[test]
fn receiver_rows_say_whether_the_account_is_being_handed_over() {
    let r = receiver("Den", Some("d"));
    let row = receiver_row(&r, &Some("Den".to_string()));
    assert!(row.activating);
    assert_eq!(row.status, "Connecting\u{2026}");
    assert!(row.hand_over_to.is_none());
    let row = receiver_row(&r, &Some("Hall".to_string()));
    assert!(!row.activating);
    assert_eq!(row.status, "On your network, click to connect");
    let target = row.hand_over_to.expect("a click hands the account over");
    assert_eq!(target.name, "Den");
    assert_eq!(target.device_id, Some("d".to_string()));
    assert_eq!(target.port, 4070);
    assert_eq!(target.path, "/zc");
    let row = receiver_row(&r, &None);
    assert!(!row.activating);
    assert!(row.hand_over_to.is_some());
}

#[test]
fn the_playback_row_says_whether_setup_is_under_way() {
    for playback in [LocalPlayback::Authorizing, LocalPlayback::Connecting] {
        let row = playback_setup_row(playback);
        assert!(row.setting_up && !row.enable_on_click);
        assert_eq!(row.status, "Setting up\u{2026}");
    }
    for playback in [LocalPlayback::Disabled, LocalPlayback::Ready] {
        let row = playback_setup_row(playback);
        assert!(!row.setting_up && row.enable_on_click);
        assert_eq!(row.status, "Set up playback here");
    }
}

#[test]
fn text_helpers() {
    assert_eq!(underscores_to_spaces("cast_audio_x"), "cast audio x");
    assert_eq!(underscores_to_spaces(""), "");
    assert!(contains_text("Desk (this computer)", "this computer"));
    assert!(contains_text("abc", ""));
    assert!(!contains_text("this compute", "this computer"));
    assert!(!contains_text("This Computer", "this computer"));
    assert_eq!(with_this_computer("Desk"), "Desk (this computer)");
}

#[test]
fn the_local_computer_is_described_as_this_computer() {
    let d = local_device(&"me".to_string(), "Desk", true, 42);
    assert_eq!(d.id, Some("me".to_string()));
    assert_eq!(d.name, "Desk (this computer)");
    assert!(d.is_active && !d.is_restricted);
    assert_eq!(d.volume_percent, Some(42));
    assert_eq!(d.supports_volume, Some(true));
    assert_eq!(d.kind, "computer");
    let row = device_row(&d, &Some("me".to_string()), &None);
    assert_eq!(row.name, "Desk (this computer)");
    assert_eq!(row.status, "Play here");
    assert_eq!(row.icon, Icon::Laptop);
}
