use hyprconnect::model::{DaemonState, DeviceState};
use hyprconnect::error::CoreError;
use hyprconnect::poller::{
    begin_cycle, begin_cycle_now, empty_snapshot_at, CycleStart, connection_changes, device_property_args, list_devices_args, list_reachable_args,
    mount_point_args, reconcile, reconcile_now, unavailable_snapshot, DeviceProperty,
    DeviceReplies,
};
use hyprconnect::store::is_fully_formed;

fn s(x: &str) -> String {
    x.to_string()
}

fn replies(id: &str, name: &str) -> DeviceReplies {
    DeviceReplies {
        id: s(id),
        name: s(name),
        mount_reply: None,
        charge_reply: None,
        charging_reply: None,
        strength_reply: None,
        network_reply: None,
    }
}

#[test]
fn paired_device_gets_every_reading() {
    let mut r = replies("abc", "Pixel");
    r.mount_reply = Some(s("/run/user/1000/abc\n"));
    r.charge_reply = Some(s("i 80"));
    r.charging_reply = Some(s("b true"));
    r.strength_reply = Some(s("i 3"));
    r.network_reply = Some(s("s \"LTE\""));
    let table = Some(s("kdeconnect@abc /run/user/1000/abc fuse.sshfs rw 0 0\n"));
    let snap = reconcile(&vec![r], &vec![s("abc")], &table, 1234);
    assert_eq!(snap.updated_at, Some(1234));
    assert_eq!(
        snap.devices,
        vec![DeviceState {
            id: s("abc"),
            name: s("Pixel"),
            reachable: true,
            paired: true,
            mounted: true,
            mount_point: Some(s("/run/user/1000/abc")),
            battery_percent: Some(80),
            charging: Some(true),
            signal_percent: Some(75),
            network_type: Some(s("LTE")),
        }]
    );
}

#[test]
fn failed_queries_leave_fields_absent() {
    let mut r = replies("abc", "Pixel");
    r.charge_reply = Some(s("i 80"));
    r.strength_reply = Some(s("garbage"));
    let snap = reconcile(&vec![r], &vec![], &None, 5);
    let d = &snap.devices[0];
    assert!(!d.reachable);
    assert!(d.paired);
    assert!(!d.mounted);
    assert_eq!(d.mount_point, None);
    assert_eq!(d.battery_percent, Some(80));
    assert_eq!(d.charging, None);
    assert_eq!(d.signal_percent, None);
    assert_eq!(d.network_type, None);
}

#[test]
fn mount_point_not_in_table_is_not_mounted() {
    let mut r = replies("abc", "Pixel");
    r.mount_reply = Some(s("/run/user/1000/abc\n"));
    let snap = reconcile(&vec![r], &vec![s("abc")], &Some(s("a /other x 0 0\n")), 5);
    assert!(!snap.devices[0].mounted);
    assert_eq!(snap.devices[0].mount_point, Some(s("/run/user/1000/abc")));
}

#[test]
fn reachable_but_unpaired_device_is_a_placeholder() {
    let snap = reconcile(&vec![replies("abc", "Pixel")], &vec![s("zzz"), s("abc")], &None, 7);
    assert_eq!(snap.devices.len(), 2);
    assert!(snap.devices[0].reachable);
    assert_eq!(
        snap.devices[1],
        DeviceState {
            id: s("zzz"),
            name: s("zzz"),
            reachable: true,
            paired: false,
            mounted: false,
            mount_point: None,
            battery_percent: None,
            charging: None,
            signal_percent: None,
            network_type: None,
        }
    );
}

#[test]
fn repeated_identifiers_keep_their_first_record() {
    let snap = reconcile(
        &vec![replies("abc", "First"), replies("abc", "Second")],
        &vec![s("zzz"), s("zzz")],
        &None,
        7,
    );
    assert_eq!(snap.devices.len(), 2);
    assert_eq!(snap.devices[0].name, "First");
    assert_eq!(snap.devices[1].id, "zzz");
    assert!(is_fully_formed(&snap));
}

#[test]
fn timed_snapshots_are_stamped() {
    let snap = reconcile_now(&vec![replies("abc", "Pixel")], &vec![], &None);
    assert!(snap.updated_at.unwrap() > 1_600_000_000_000);
    let empty = unavailable_snapshot();
    assert!(empty.devices.is_empty());
    assert!(empty.updated_at.unwrap() > 1_600_000_000_000);
}

fn device(id: &str, name: &str, reachable: bool) -> DeviceState {
    DeviceState {
        id: s(id),
        name: s(name),
        reachable,
        paired: true,
        mounted: false,
        mount_point: None,
        battery_percent: None,
        charging: None,
        signal_percent: None,
        network_type: None,
    }
}

#[test]
fn transitions_are_announced_in_order() {
    let prev = DaemonState {
        devices: vec![device("abc", "Pixel", false), device("old", "Old", true)],
        updated_at: None,
    };
    let next = DaemonState {
        devices: vec![
            device("abc", "Pixel", true),
            device("new", "Tablet", true),
            device("old", "Old", false),
            device("same", "Same", false),
        ],
        updated_at: None,
    };
    let changes = connection_changes(&prev, &next, true);
    let got: Vec<(String, bool)> = changes.iter().map(|c| (c.name.clone(), c.connected)).collect();
    assert_eq!(got, vec![(s("Pixel"), true), (s("Tablet"), true), (s("Old"), false)]);
    assert_eq!(changes[0].body(), "Phone connected");
    assert_eq!(changes[2].body(), "Phone disconnected");
    assert!(connection_changes(&prev, &next, false).is_empty());
}

#[test]
fn query_arguments() {
    assert_eq!(list_devices_args(), vec![s("--list-devices"), s("--id-name-only")]);
    assert_eq!(list_reachable_args(), vec![s("--list-available"), s("--id-only")]);
    assert_eq!(mount_point_args("abc"), vec![s("--device"), s("abc"), s("--get-mount-point")]);
    assert_eq!(
        device_property_args("abc", DeviceProperty::CellularStrength),
        vec![
            s("--user"),
            s("get-property"),
            s("org.kde.kdeconnect"),
            s("/modules/kdeconnect/devices/abc/connectivity_report"),
            s("org.kde.kdeconnect.device.connectivity_report"),
            s("cellularNetworkStrength"),
        ]
    );
    assert_eq!(
        device_property_args("abc", DeviceProperty::Charging)[3..],
        [
            s("/modules/kdeconnect/devices/abc/battery"),
            s("org.kde.kdeconnect.device.battery"),
            s("isCharging"),
        ]
    );
}

#[test]
fn failed_list_query_installs_an_empty_snapshot() {
    let failed: Result<String, CoreError> = Err(CoreError::Upstream { message: s("no daemon") });
    let listed: Result<String, CoreError> = Ok(s("abc Pixel\n"));
    for (names, reachable) in [(&failed, &listed), (&listed, &failed), (&failed, &failed)] {
        match begin_cycle(names, reachable, 77) {
            CycleStart::Unavailable(snap) => {
                assert!(snap.devices.is_empty());
                assert_eq!(snap.updated_at, Some(77));
            }
            other => panic!("unexpected {other:?}"),
        }
    }
    match begin_cycle_now(&failed, &listed) {
        CycleStart::Unavailable(snap) => assert!(snap.updated_at.unwrap() > 1_600_000_000_000),
        other => panic!("unexpected {other:?}"),
    }
    let empty = empty_snapshot_at(-5);
    assert!(empty.devices.is_empty());
    assert_eq!(empty.updated_at, Some(-5));
}

#[test]
fn listed_cycle_parses_both_lists() {
    let names: Result<String, CoreError> = Ok(s("- Pixel 7: abc\n"));
    let reachable: Result<String, CoreError> = Ok(s(" abc \nzzz\n"));
    match begin_cycle(&names, &reachable, 1) {
        CycleStart::Listed { paired, reachable } => {
            assert_eq!(paired, vec![(s("abc"), s("Pixel 7"))]);
            assert_eq!(reachable, vec![s("abc"), s("zzz")]);
        }
        other => panic!("unexpected {other:?}"),
    }
}
