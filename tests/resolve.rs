use hyprconnect::error::CoreError;
use hyprconnect::model::{DaemonState, DeviceState};
use hyprconnect::resolve::resolve_device;

fn dev(id: &str, paired: bool, reachable: bool) -> DeviceState {
    DeviceState {
        id: id.to_string(),
        name: format!("name-{id}"),
        reachable,
        paired,
        mounted: false,
        mount_point: None,
        battery_percent: None,
        charging: None,
        signal_percent: None,
        network_type: None,
    }
}

fn snapshot() -> DaemonState {
    DaemonState {
        devices: vec![
            dev("b", true, false),
            dev("c", false, true),
            dev("a", true, true),
            dev("d", true, true),
        ],
        updated_at: Some(1),
    }
}

fn some(s: &str) -> Option<String> {
    Some(s.to_string())
}

#[test]
fn explicit_invalid_device_is_an_error_not_a_fallback() {
    let s = snapshot();
    let r = resolve_device(&s, &some("a"), some("b"));
    assert_eq!(r, Err(CoreError::NotActionable { device: "b".to_string() }));
    assert_eq!(r.unwrap_err().message(), "device 'b' is not both paired and reachable");
    assert_eq!(
        resolve_device(&s, &some("a"), some("c")),
        Err(CoreError::NotActionable { device: "c".to_string() })
    );
    assert_eq!(
        resolve_device(&s, &some("a"), some("zzz")),
        Err(CoreError::NotActionable { device: "zzz".to_string() })
    );
}

#[test]
fn explicit_valid_device_wins_over_default() {
    assert_eq!(resolve_device(&snapshot(), &some("a"), some("d")), Ok("d".to_string()));
}

#[test]
fn valid_default_is_chosen() {
    assert_eq!(resolve_device(&snapshot(), &some("d"), None), Ok("d".to_string()));
}

#[test]
fn invalid_default_falls_back_to_first_actionable() {
    assert_eq!(resolve_device(&snapshot(), &some("b"), None), Ok("a".to_string()));
    assert_eq!(resolve_device(&snapshot(), &some("nope"), None), Ok("a".to_string()));
    assert_eq!(resolve_device(&snapshot(), &None, None), Ok("a".to_string()));
}

#[test]
fn no_candidate_is_an_error() {
    let s = DaemonState { devices: vec![dev("b", true, false), dev("c", false, true)], updated_at: None };
    let r = resolve_device(&s, &some("b"), None);
    assert_eq!(r, Err(CoreError::NoActionableDevice));
    assert_eq!(r.unwrap_err().message(), "no paired and reachable KDE Connect device found");
    assert_eq!(resolve_device(&DaemonState::empty(), &None, None), Err(CoreError::NoActionableDevice));
}
