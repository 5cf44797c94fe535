use hyprconnect::client::{
    available_line, build_waybar_payload, cellular_signal_icon, device_list_line,
    diagnostic_target, plugin_listed, report_line, response_text, status_lines,
};
use hyprconnect::model::{Config, DaemonState, DeviceState, IpcResponse};

fn s(x: &str) -> String {
    x.to_string()
}

fn phone() -> DeviceState {
    DeviceState {
        id: s("abc"),
        name: s("Pixel"),
        reachable: true,
        paired: true,
        mounted: true,
        mount_point: Some(s("/mnt/x")),
        battery_percent: Some(25),
        charging: Some(true),
        signal_percent: Some(80),
        network_type: Some(s("LTE")),
    }
}

#[test]
fn payload_shows_first_reachable_device() {
    let mut off = phone();
    off.id = s("off");
    off.name = s("Offline one");
    off.reachable = false;
    let state = DaemonState { devices: vec![off, phone()], updated_at: None };
    let p = build_waybar_payload(&state);
    assert_eq!(p.text, "\u{f08fa} \u{f011c} \u{f06f3} 25% \u{f0e7}");
    assert_eq!(p.class, "crit");
    assert_eq!(
        p.tooltip,
        "Pixel\nBattery: 25%\nStatus: Connected\nPaired: Yes\nMounted: Yes\nMount point: /mnt/x\nSignal: 80%\nNetwork: LTE\nDevices connected: 1"
    );
}

#[test]
fn payload_without_readings() {
    let mut d = phone();
    d.mounted = false;
    d.battery_percent = None;
    d.charging = None;
    d.signal_percent = None;
    d.network_type = None;
    let p = build_waybar_payload(&DaemonState { devices: vec![d.clone(), d], updated_at: None });
    assert_eq!(p.text, "\u{f08fe} \u{f011c} --");
    assert_eq!(p.class, "ok");
    assert!(p.tooltip.ends_with("Mount point: --\nSignal: --\nNetwork: Unknown\nDevices connected: 2"));
}

#[test]
fn payload_when_offline() {
    let p = build_waybar_payload(&DaemonState::empty());
    assert_eq!(p.text, "\u{f0130}");
    assert_eq!(p.tooltip, "Phone: offline");
    assert_eq!(p.class, "disconnected");
}

#[test]
fn battery_classes() {
    let mut d = phone();
    d.battery_percent = Some(49);
    assert_eq!(build_waybar_payload(&DaemonState { devices: vec![d.clone()], updated_at: None }).class, "warn");
    d.battery_percent = Some(50);
    assert_eq!(build_waybar_payload(&DaemonState { devices: vec![d], updated_at: None }).class, "ok");
}

#[test]
fn signal_icons() {
    assert_eq!(cellular_signal_icon(Some(100)), "\u{f08fa}");
    assert_eq!(cellular_signal_icon(Some(75)), "\u{f08fa}");
    assert_eq!(cellular_signal_icon(Some(50)), "\u{f08f8}");
    assert_eq!(cellular_signal_icon(Some(30)), "\u{f08f6}");
    assert_eq!(cellular_signal_icon(Some(10)), "\u{f08f4}");
    assert_eq!(cellular_signal_icon(Some(9)), "\u{f08fe}");
    assert_eq!(cellular_signal_icon(None), "\u{f08fe}");
}

#[test]
fn status_and_listing_lines() {
    let mut other = phone();
    other.reachable = false;
    other.paired = false;
    other.battery_percent = None;
    let state = DaemonState { devices: vec![phone(), other.clone()], updated_at: None };
    assert_eq!(
        status_lines(&state),
        vec![
            s("Hyprconnect devices: 2"),
            s("- Pixel (abc) :: connected / paired :: battery 25%"),
            s("- Pixel (abc) :: offline / unpaired :: battery n/a"),
        ]
    );
    assert_eq!(device_list_line(&phone()), "Pixel (abc) - connected - battery 25%");
    assert_eq!(available_line(&other), "Pixel (abc) - unpaired");
}

#[test]
fn response_texts() {
    let r = IpcResponse { ok: true, message: None, state: None };
    assert_eq!(response_text(&r), "ok");
    let r = IpcResponse { ok: false, message: None, state: None };
    assert_eq!(response_text(&r), "action failed");
    let r = IpcResponse { ok: false, message: Some(s("bad")), state: None };
    assert_eq!(response_text(&r), "bad");
}

#[test]
fn diagnostics_helpers() {
    let mut off = phone();
    off.reachable = false;
    let st = DaemonState { devices: vec![off.clone(), phone()], updated_at: None };
    assert_eq!(diagnostic_target(&st), Some(1));
    let st = DaemonState { devices: vec![off], updated_at: None };
    assert_eq!(diagnostic_target(&st), Some(0));
    assert_eq!(diagnostic_target(&DaemonState::empty()), None);
    assert!(plugin_listed("as 2 \"kdeconnect_mprisremote\" \"x\"", "kdeconnect_mprisremote"));
    assert!(!plugin_listed("as 1 \"x\"", "kdeconnect_mprisremote"));
    assert!(plugin_listed("abc", ""));
    assert_eq!(report_line("busctl", true), "busctl: ok");
    assert_eq!(report_line("busctl", false), "busctl: missing/fail");
}

#[test]
fn config_defaults_and_interval_floor() {
    let c = Config::default();
    assert_eq!(c.default_device, None);
    assert_eq!(c.poll_interval_seconds, 10);
    assert_eq!(c.battery_warn_percent, 30);
    assert_eq!(c.battery_crit_percent, 15);
    assert!(c.notifications_enabled);
    let mut c = Config::default();
    c.poll_interval_seconds = 3;
    assert_eq!(c.poll_interval(), 10);
    c.poll_interval_seconds = 45;
    assert_eq!(c.poll_interval(), 45);
}
