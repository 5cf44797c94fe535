use hyprconnect::error::{CoreError, ErrorKind};
use hyprconnect::media::MediaPlan;
use hyprconnect::model::{DaemonState, DeviceState, IpcRequest, IpcResponse, MediaAction};
use hyprconnect::mount::{MountAction, MountGoal, MountPhase};
use hyprconnect::server::{
    command_outcome, into_response, plan_clipboard_share, plan_request, plan_share, tool_response,
    CommandKind, CommandStatus, Plan,
};
use serde_json::Value;

fn s(x: &str) -> String {
    x.to_string()
}

fn dev(id: &str, paired: bool, reachable: bool) -> DeviceState {
    DeviceState {
        id: s(id),
        name: s(id),
        reachable,
        paired,
        mounted: false,
        mount_point: None,
        battery_percent: Some(50),
        charging: None,
        signal_percent: None,
        network_type: None,
    }
}

fn snapshot() -> DaemonState {
    DaemonState { devices: vec![dev("abc", true, true), dev("off", true, false)], updated_at: Some(9) }
}

fn tool(p: Plan) -> (Vec<String>, String) {
    match p {
        Plan::Tool { args, ok_message } => (args, ok_message),
        other => panic!("unexpected {other:?}"),
    }
}

fn reply(p: Plan) -> IpcResponse {
    match p {
        Plan::Reply(r) => r,
        other => panic!("unexpected {other:?}"),
    }
}

fn all_requests() -> Vec<IpcRequest> {
    vec![
        IpcRequest::GetState,
        IpcRequest::ShareFile { path: s("/tmp/a"), device: None },
        IpcRequest::ShareUrl { url: s("https://x"), device: Some(s("off")) },
        IpcRequest::ShareClipboard { device: None },
        IpcRequest::Ping { message: None, device: None },
        IpcRequest::Pair { device: s("abc") },
        IpcRequest::Unpair { device: s("abc") },
        IpcRequest::Find { device: Some(s("nope")) },
        IpcRequest::RefreshNetwork,
        IpcRequest::Mount { device: None },
        IpcRequest::OpenMount { device: None },
        IpcRequest::ToggleMount { device: None },
        IpcRequest::Media { device: None, action: MediaAction::Status },
    ]
}

#[test]
fn only_state_queries_carry_state() {
    let state = snapshot();
    for req in all_requests() {
        let is_query = matches!(req, IpcRequest::GetState);
        match plan_request(req, &None, &state) {
            Plan::Reply(r) => assert_eq!(r.state.is_some(), is_query),
            _ => assert!(!is_query),
        }
    }
    let r = reply(plan_request(IpcRequest::GetState, &None, &state));
    assert!(r.ok);
    assert_eq!(r.message, None);
    assert_eq!(r.state, Some(state));
    assert_eq!(into_response(Ok(s("x"))).state, None);
    assert_eq!(into_response(Err(CoreError::EmptyShare)).state, None);
}

#[test]
fn tool_requests() {
    let st = snapshot();
    let (args, m) = tool(plan_request(IpcRequest::Ping { message: None, device: None }, &None, &st));
    assert_eq!(args, vec![s("--device"), s("abc"), s("--ping-msg"), s("Ping from Hyprconnect")]);
    assert_eq!(m, "Ping sent to abc");
    let (args, _) = tool(plan_request(
        IpcRequest::Ping { message: Some(s("hi")), device: Some(s("abc")) },
        &None,
        &st,
    ));
    assert_eq!(args[3], "hi");
    let (args, m) = tool(plan_request(IpcRequest::Pair { device: s("new") }, &None, &st));
    assert_eq!(args, vec![s("--device"), s("new"), s("--pair")]);
    assert_eq!(m, "Pair request sent to new");
    let (args, m) = tool(plan_request(IpcRequest::Unpair { device: s("abc") }, &None, &st));
    assert_eq!(args, vec![s("--device"), s("abc"), s("--unpair")]);
    assert_eq!(m, "Unpaired abc");
    let (args, m) = tool(plan_request(IpcRequest::Find { device: None }, &None, &st));
    assert_eq!(args, vec![s("--device"), s("abc"), s("--ring")]);
    assert_eq!(m, "Ringing abc");
    let (args, m) = tool(plan_request(IpcRequest::RefreshNetwork, &None, &st));
    assert_eq!(args, vec![s("--refresh")]);
    assert_eq!(m, "Refreshed KDE Connect device discovery");
    let (args, m) = tool(plan_request(IpcRequest::ShareUrl { url: s("https://x"), device: None }, &None, &st));
    assert_eq!(args, vec![s("--device"), s("abc"), s("--share"), s("https://x")]);
    assert_eq!(m, "Shared to abc");
}

#[test]
fn unresolvable_target_is_answered_with_an_error() {
    let st = snapshot();
    let r = reply(plan_request(IpcRequest::Find { device: Some(s("off")) }, &None, &st));
    assert!(!r.ok);
    assert_eq!(r.message, Some(s("device 'off' is not both paired and reachable")));
    assert_eq!(r.state, None);
    let r = reply(plan_request(IpcRequest::Mount { device: None }, &None, &DaemonState::empty()));
    assert_eq!(r.message, Some(s("no paired and reachable KDE Connect device found")));
}

#[test]
fn blank_share_is_refused_before_resolution() {
    let r = reply(plan_share(s("  \n"), Some(s("off")), &None, &snapshot()));
    assert!(!r.ok);
    assert_eq!(r.message, Some(s("clipboard is empty")));
    assert_eq!(CoreError::EmptyShare.kind(), ErrorKind::Invalid);
}

#[test]
fn clipboard_share_follows_the_read() {
    let st = snapshot();
    assert!(matches!(
        plan_request(IpcRequest::ShareClipboard { device: None }, &None, &st),
        Plan::ReadClipboard { device: None }
    ));
    let text = command_outcome(CommandKind::Clipboard, CommandStatus::Exited { success: true }, " https://a \n", "");
    assert_eq!(text, Ok(s("https://a")));
    let (args, _) = tool(plan_clipboard_share(text, None, &None, &st));
    assert_eq!(args[3], "https://a");
    let empty = command_outcome(CommandKind::Clipboard, CommandStatus::Exited { success: true }, "  \n", "");
    assert_eq!(empty, Err(CoreError::EmptyShare));
    let r = reply(plan_clipboard_share(empty, None, &None, &st));
    assert_eq!(r.message, Some(s("clipboard is empty")));
}

#[test]
fn mount_requests_start_mount_operations() {
    let st = snapshot();
    match plan_request(IpcRequest::ToggleMount { device: None }, &Some(s("abc")), &st) {
        Plan::Mount { task, first } => {
            assert_eq!(task.device, "abc");
            assert_eq!(task.goal, MountGoal::Toggle);
            assert_eq!(task.phase, MountPhase::ToggleCheck);
            assert!(matches!(first, MountAction::Observe));
        }
        other => panic!("unexpected {other:?}"),
    }
    match plan_request(IpcRequest::OpenMount { device: Some(s("abc")) }, &None, &st) {
        Plan::Mount { task, first } => {
            assert_eq!(task.goal, MountGoal::OpenMount);
            assert!(matches!(first, MountAction::RunTool { .. }));
        }
        other => panic!("unexpected {other:?}"),
    }
}

#[test]
fn command_outcomes() {
    let ok = CommandStatus::Exited { success: true };
    let failed = CommandStatus::Exited { success: false };
    assert_eq!(command_outcome(CommandKind::DeviceTool, ok, " out \n", ""), Ok(s(" out \n")));
    assert_eq!(
        command_outcome(CommandKind::DeviceTool, failed, "", "  error: no device \n"),
        Err(CoreError::Upstream { message: s("error: no device") })
    );
    assert_eq!(
        command_outcome(CommandKind::DeviceTool, failed, "", " \n"),
        Err(CoreError::Upstream { message: s("kdeconnect-cli failed") })
    );
    assert_eq!(
        command_outcome(CommandKind::DeviceTool, CommandStatus::SpawnFailed, "", ""),
        Err(CoreError::Unavailable { message: s("failed to execute kdeconnect-cli") })
    );
    let missing = command_outcome(CommandKind::BusGet, CommandStatus::Missing, "", "");
    assert_eq!(missing, Err(CoreError::Unavailable { message: s("busctl not found") }));
    assert_eq!(missing.unwrap_err().kind(), ErrorKind::Unavailable);
    assert_eq!(command_outcome(CommandKind::BusGet, ok, "  i 42 \n", ""), Ok(s("i 42")));
    assert_eq!(
        command_outcome(CommandKind::BusGet, failed, "", "boom"),
        Err(CoreError::Upstream { message: s("dbus property not available") })
    );
    assert_eq!(
        command_outcome(CommandKind::BusCall, failed, "", ""),
        Err(CoreError::Upstream { message: s("busctl call failed") })
    );
    assert_eq!(
        command_outcome(CommandKind::BusSet, failed, "", "Access denied\n"),
        Err(CoreError::Upstream { message: s("Access denied") })
    );
    assert_eq!(command_outcome(CommandKind::BusSet, ok, "ignored", ""), Ok(String::new()));
    assert_eq!(
        command_outcome(CommandKind::Clipboard, failed, "", ""),
        Err(CoreError::Upstream { message: s("failed to read clipboard with wl-paste") })
    );
}

#[test]
fn tool_results_become_responses() {
    let r = tool_response(Ok(s("stdout")), s("Ringing abc"));
    assert!(r.ok);
    assert_eq!(r.message, Some(s("Ringing abc")));
    let r = tool_response(Err(CoreError::Upstream { message: s("bad") }), s("Ringing abc"));
    assert!(!r.ok);
    assert_eq!(r.message, Some(s("bad")));
    assert_eq!(r.state, None);
}

fn response_json(r: &IpcResponse) -> Value {
    let mut m = serde_json::Map::new();
    m.insert(s("ok"), Value::Bool(r.ok));
    m.insert(s("message"), r.message.clone().map(Value::String).unwrap_or(Value::Null));
    m.insert(s("state"), Value::Null);
    Value::Object(m)
}

#[test]
fn media_seek_round_trip_keeps_ok_and_message() {
    let mut action = serde_json::Map::new();
    action.insert(s("action"), Value::String(s("seek")));
    action.insert(s("ms"), Value::from(-5000));
    let mut req = serde_json::Map::new();
    req.insert(s("type"), Value::String(s("media")));
    req.insert(s("device"), Value::String(s("abc")));
    req.insert(s("action"), Value::Object(action));
    let wire = serde_json::to_vec(&Value::Object(req)).unwrap();
    let back: Value = serde_json::from_slice(&wire).unwrap();
    let ms = back["action"]["ms"].as_i64().unwrap() as i32;
    let device = back["device"].as_str().map(s);
    let request = IpcRequest::Media { device, action: MediaAction::Seek { ms } };

    let (args, ok_message) = match plan_request(request, &None, &snapshot()) {
        Plan::Media(MediaPlan::Call { args, ok_message }) => (args, ok_message),
        other => panic!("unexpected {other:?}"),
    };
    assert_eq!(
        args,
        vec![
            s("--user"),
            s("call"),
            s("org.kde.kdeconnect"),
            s("/modules/kdeconnect/devices/abc/mprisremote"),
            s("org.kde.kdeconnect.device.mprisremote"),
            s("seek"),
            s("i"),
            s("-5000"),
        ]
    );
    let resp = tool_response(command_outcome(CommandKind::BusCall, CommandStatus::Exited { success: true }, "", ""), ok_message);
    let bytes = serde_json::to_vec(&response_json(&resp)).unwrap();
    let parsed: Value = serde_json::from_slice(&bytes).unwrap();
    assert_eq!(parsed["ok"].as_bool(), Some(resp.ok));
    assert_eq!(parsed["message"].as_str().map(|m| m.as_bytes().to_vec()), resp.message.clone().map(|m| m.into_bytes()));
    assert_eq!(parsed["message"].as_str(), Some("Seeked abc by -5000ms"));
    assert!(parsed["state"].is_null());
}
