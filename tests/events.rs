use hyprconnect::events::{is_device_path, is_refresh_signal, Debouncer, EventWatcher};

#[test]
fn two_signals_inside_the_window_refresh_once() {
    let mut d = Debouncer::new();
    let n = [1000u64, 1050].iter().filter(|t| d.accept(**t)).count();
    assert_eq!(n, 1);
}

#[test]
fn two_signals_past_the_window_refresh_twice() {
    let mut d = Debouncer::new();
    let n = [1000u64, 1300].iter().filter(|t| d.accept(**t)).count();
    assert_eq!(n, 2);
    let mut d = Debouncer::new();
    assert!(d.accept(0));
    assert!(!d.accept(199));
    assert!(d.accept(200));
}

#[test]
fn window_runs_from_the_last_accepted_trigger() {
    let mut d = Debouncer::new();
    let got: Vec<bool> = [0u64, 150, 250, 400].iter().map(|t| d.accept(*t)).collect();
    assert_eq!(got, vec![true, false, true, false]);
}

#[test]
fn refresh_signal_allow_list() {
    assert!(is_refresh_signal("org.kde.kdeconnect.device", "reachableChanged"));
    assert!(is_refresh_signal("org.kde.kdeconnect.device", "pairStateChanged"));
    assert!(is_refresh_signal("org.kde.kdeconnect.device.battery", "refreshed"));
    assert!(is_refresh_signal("org.kde.kdeconnect.device.connectivity_report", "refreshed"));
    assert!(!is_refresh_signal("org.kde.kdeconnect.device", "refreshed"));
    assert!(!is_refresh_signal("org.kde.kdeconnect.device.battery", "reachableChanged"));
    assert!(!is_refresh_signal("", ""));
    assert!(is_device_path("/modules/kdeconnect/devices/abc/battery"));
    assert!(!is_device_path("/modules/kdeconnect/other"));
}

#[test]
fn watcher_filters_then_debounces() {
    let mut w = EventWatcher::new();
    let path = Some("/modules/kdeconnect/devices/abc");
    assert!(!w.on_message(false, path, "org.kde.kdeconnect.device", "reachableChanged", 0));
    assert!(!w.on_message(true, None, "org.kde.kdeconnect.device", "reachableChanged", 0));
    assert!(!w.on_message(true, Some("/other"), "org.kde.kdeconnect.device", "reachableChanged", 0));
    assert!(!w.on_message(true, path, "org.kde.kdeconnect.device", "nameChanged", 0));
    assert!(w.on_message(true, path, "org.kde.kdeconnect.device", "reachableChanged", 0));
    assert!(!w.on_message(true, path, "org.kde.kdeconnect.device.battery", "refreshed", 50));
    assert!(w.on_message(true, path, "org.kde.kdeconnect.device.battery", "refreshed", 300));
}
