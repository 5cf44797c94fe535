use hyprconnect::devices::{
    battery_percent, is_mountpoint_mounted, mount_point_from_reply, observe_mount,
    parse_device_list, parse_reachable_ids, signal_percent, signal_percent_for_bars,
};
use hyprconnect::reply::{parse_dbus_bool, parse_dbus_int, parse_dbus_string, parse_dbus_string_array};
use hyprconnect::text::{decimal_text, signed_text, trim_text};

fn pair(id: &str, name: &str) -> (String, String) {
    (id.to_string(), name.to_string())
}

#[test]
fn device_list_reads_both_formats() {
    let out = "- Pixel 7: abc123\n0123abcd Galaxy S23\n\n   \nno-space-here\n!!!\n";
    assert_eq!(
        parse_device_list(out),
        vec![pair("abc123", "Pixel 7"), pair("0123abcd", "Galaxy S23")]
    );
}

#[test]
fn device_list_legacy_name_runs_to_last_colon() {
    assert_eq!(parse_device_list("- My: Phone:  xyz_9\n"), vec![pair("xyz_9", "My: Phone")]);
}

#[test]
fn device_list_legacy_blank_name_keeps_one_space() {
    assert_eq!(parse_device_list("-   : abc"), vec![pair("abc", " ")]);
}

#[test]
fn device_list_legacy_bad_id_falls_back_to_current() {
    assert_eq!(
        parse_device_list("- Name: id with space"),
        vec![pair("-", "Name: id with space")]
    );
}

#[test]
fn device_list_trims_lines_and_carriage_returns() {
    assert_eq!(parse_device_list("  dev1   Phone One \r\n"), vec![pair("dev1", "Phone One")]);
}

#[test]
fn device_list_empty_output() {
    assert!(parse_device_list("").is_empty());
}

#[test]
fn reachable_ids_skip_blank_lines() {
    assert_eq!(
        parse_reachable_ids(" abc \n\n  \ndef\n"),
        vec!["abc".to_string(), "def".to_string()]
    );
    assert!(parse_reachable_ids("").is_empty());
}

#[test]
fn mount_point_is_first_line_trimmed() {
    assert_eq!(
        mount_point_from_reply("  /run/user/1000/abc \nsecond\n"),
        Some("/run/user/1000/abc".to_string())
    );
    assert_eq!(mount_point_from_reply(""), None);
    assert_eq!(mount_point_from_reply("   \n/other"), None);
}

#[test]
fn mount_table_second_field_is_target() {
    let table = Some(
        "proc /proc proc rw 0 0\nkdeconnect@abc /run/user/1000/abc fuse.sshfs rw 0 0\n".to_string(),
    );
    assert!(is_mountpoint_mounted("/run/user/1000/abc", &table));
    assert!(!is_mountpoint_mounted("/run/user/1000", &table));
    assert!(!is_mountpoint_mounted("kdeconnect@abc", &table));
    assert!(!is_mountpoint_mounted("/run/user/1000/abc", &None));
    assert!(!is_mountpoint_mounted("/x", &Some("onlyone\n".to_string())));
}

#[test]
fn observation_needs_point_and_table_entry() {
    let table = Some("src /mnt/p fuse 0 0\n".to_string());
    let o = observe_mount(Some("/mnt/p".to_string()), &table);
    assert!(o.mounted);
    assert_eq!(o.mount_point, Some("/mnt/p".to_string()));
    let o = observe_mount(Some("/mnt/q".to_string()), &table);
    assert!(!o.mounted);
    assert_eq!(o.mount_point, Some("/mnt/q".to_string()));
    let o = observe_mount(Some(String::new()), &table);
    assert!(!o.mounted);
    assert_eq!(o.mount_point, None);
    let o = observe_mount(None, &table);
    assert!(!o.mounted);
}

#[test]
fn signal_bars_map_to_percent() {
    let got: Vec<u8> = (0u8..=6).map(signal_percent_for_bars).collect();
    assert_eq!(got, vec![0, 25, 50, 75, 100, 100, 100]);
    assert_eq!(signal_percent_for_bars(255), 100);
}

#[test]
fn raw_signal_readings_never_drop() {
    let readings = [0, 1, 2, 3, 4, 5, 255, 256, 1000, i32::MAX];
    let got: Vec<u8> = readings.iter().map(|b| signal_percent(Some(*b)).unwrap()).collect();
    assert_eq!(got, vec![0, 25, 50, 75, 100, 100, 100, 100, 100, 100]);
}

#[test]
fn signal_mapping_is_monotonic_and_stable() {
    let mut prev = 0u8;
    for b in 0u8..=255 {
        let p = signal_percent_for_bars(b);
        assert!(p >= prev);
        assert!(p <= 100);
        assert_eq!(signal_percent_for_bars(p / 25), p);
        prev = p;
    }
}

#[test]
fn raw_signal_and_battery_readings() {
    assert_eq!(signal_percent(Some(3)), Some(75));
    assert_eq!(signal_percent(Some(9)), Some(100));
    assert_eq!(signal_percent(Some(-1)), None);
    assert_eq!(signal_percent(Some(300)), Some(100));
    assert_eq!(signal_percent(Some(i32::MAX)), Some(100));
    assert_eq!(signal_percent(None), None);
    assert_eq!(battery_percent(Some(100)), Some(100));
    assert_eq!(battery_percent(Some(0)), Some(0));
    assert_eq!(battery_percent(Some(101)), None);
    assert_eq!(battery_percent(Some(-5)), None);
}

#[test]
fn string_replies() {
    assert_eq!(parse_dbus_string("s \"Spotify\""), Some("Spotify".to_string()));
    assert_eq!(parse_dbus_string("  s \" Two Words \"  \n"), Some("Two Words".to_string()));
    assert_eq!(parse_dbus_string("s \"\""), None);
    assert_eq!(parse_dbus_string("s"), None);
    assert_eq!(parse_dbus_string(""), None);
    assert_eq!(parse_dbus_string("s LTE"), Some("LTE".to_string()));
}

#[test]
fn bool_replies() {
    assert_eq!(parse_dbus_bool("b true"), Some(true));
    assert_eq!(parse_dbus_bool("b false\n"), Some(false));
    assert_eq!(parse_dbus_bool("b True"), None);
    assert_eq!(parse_dbus_bool("b"), None);
}

#[test]
fn int_replies() {
    assert_eq!(parse_dbus_int("i 42"), Some(42));
    assert_eq!(parse_dbus_int("i -7"), Some(-7));
    assert_eq!(parse_dbus_int("i +5"), Some(5));
    assert_eq!(parse_dbus_int("i 2147483647"), Some(i32::MAX));
    assert_eq!(parse_dbus_int("i -2147483648"), Some(i32::MIN));
    assert_eq!(parse_dbus_int("i 2147483648"), None);
    assert_eq!(parse_dbus_int("i 99999999999999999999"), None);
    assert_eq!(parse_dbus_int("i -"), None);
    assert_eq!(parse_dbus_int("i 4x"), None);
    assert_eq!(parse_dbus_int("u 7 extra"), Some(7));
    assert_eq!(parse_dbus_int("i"), None);
}

#[test]
fn array_replies() {
    assert_eq!(
        parse_dbus_string_array("as 2 \"Spotify\" \"VLC\""),
        vec!["Spotify".to_string(), "VLC".to_string()]
    );
    assert!(parse_dbus_string_array("as 0").is_empty());
    assert_eq!(parse_dbus_string_array("\"\"x\""), vec!["x".to_string()]);
    assert_eq!(parse_dbus_string_array("\"a\" \"unterminated"), vec!["a".to_string()]);
}

#[test]
fn decimal_and_trim_helpers() {
    assert_eq!(decimal_text(0), "0");
    assert_eq!(decimal_text(1234567890), "1234567890");
    assert_eq!(decimal_text(u64::MAX), u64::MAX.to_string());
    assert_eq!(signed_text(-5000), "-5000");
    assert_eq!(signed_text(i64::MIN), i64::MIN.to_string());
    assert_eq!(trim_text("\t a b \u{3000}"), "a b");
    assert_eq!(trim_text("   "), "");
}
