//! The request dispatcher: what each request of the control channel asks the
//! daemon to do, how outside commands' results read, and the response sent.
use vstd::prelude::*;
use crate::devices::string_texts;
use crate::error::{error_text, join2, CoreError};
use crate::media::{media_plan_ok, plan_media, MediaPlan};
use crate::model::{DaemonState, IpcRequest, IpcResponse};
use crate::mount::{mount_args, MountAction, MountGoal, MountTask};
use crate::resolve::{resolution, resolve_device};
use crate::text::{chars_of, string_of, trim, trim_chars, trim_text};

verus! {

/// The outside program a command runs.
#[derive(Debug, Clone, Copy, PartialEq, Eq)]
pub enum CommandKind {
    /// The device-link tool; its output is the payload.
    DeviceTool,
    /// The clipboard reader.
    Clipboard,
    /// A bus property read.
    BusGet,
    /// A bus method call.
    BusCall,
    /// A bus property write.
    BusSet,
}

/// How a command ended.
#[derive(Debug, Clone, Copy, PartialEq, Eq)]
pub enum CommandStatus {
    /// The program is not installed.
    Missing,
    /// The program could not be started.
    SpawnFailed,
    /// The program ran and exited, successfully or not.
    Exited { success: bool },
}

pub open spec fn program_name(kind: CommandKind) -> Seq<char> {
    match kind {
        CommandKind::DeviceTool => "kdeconnect-cli"@,
        CommandKind::Clipboard => "wl-paste"@,
        _ => "busctl"@,
    }
}

pub open spec fn spawn_failure_text(kind: CommandKind) -> Seq<char> {
    match kind {
        CommandKind::DeviceTool => "failed to execute kdeconnect-cli"@,
        CommandKind::Clipboard => "failed to execute wl-paste"@,
        CommandKind::BusGet => "failed to execute busctl"@,
        CommandKind::BusCall => "failed to execute busctl call"@,
        CommandKind::BusSet => "failed to execute busctl set-property"@,
    }
}

/// The description of a non-zero exit: the trimmed error output where the
/// program's own text is passed on and there is any, else a fixed text.
pub open spec fn exit_failure_text(kind: CommandKind, stderr: Seq<char>) -> Seq<char> {
    match kind {
        CommandKind::Clipboard => "failed to read clipboard with wl-paste"@,
        CommandKind::BusGet => "dbus property not available"@,
        _ => if trim(stderr).len() > 0 {
            trim(stderr)
        } else {
            match kind {
                CommandKind::DeviceTool => "kdeconnect-cli failed"@,
                CommandKind::BusCall => "busctl call failed"@,
                _ => "busctl set-property failed"@,
            }
        },
    }
}

/// The payload of a successful run.
pub open spec fn success_payload(kind: CommandKind, stdout: Seq<char>) -> Seq<char> {
    match kind {
        CommandKind::DeviceTool => stdout,
        CommandKind::Clipboard => trim(stdout),
        CommandKind::BusGet => trim(stdout),
        _ => Seq::empty(),
    }
}

/// What a command's run amounts to: a missing or unstartable program is
/// unavailable, a failed exit is an upstream failure, an empty clipboard is
/// invalid, and otherwise its payload.
pub open spec fn outcome_ok(
    kind: CommandKind,
    status: CommandStatus,
    stdout: Seq<char>,
    stderr: Seq<char>,
    r: Result<String, CoreError>,
) -> bool {
    match status {
        CommandStatus::Missing => r matches Err(CoreError::Unavailable { message }) && message@
            == program_name(kind) + " not found"@,
        CommandStatus::SpawnFailed => r matches Err(CoreError::Unavailable { message }) && message@
            == spawn_failure_text(kind),
        CommandStatus::Exited { success } => if !success {
            r matches Err(CoreError::Upstream { message }) && message@ == exit_failure_text(
                kind,
                stderr,
            )
        } else if kind is Clipboard && trim(stdout).len() == 0 {
            r == Err::<String, CoreError>(CoreError::EmptyShare)
        } else {
            r matches Ok(p) && p@ == success_payload(kind, stdout)
        },
    }
}

fn kind_program(kind: CommandKind) -> (r: &'static str)
    ensures
        r@ == program_name(kind),
{
    match kind {
        CommandKind::DeviceTool => "kdeconnect-cli",
        CommandKind::Clipboard => "wl-paste",
        _ => "busctl",
    }
}

/// The result of running a command of `kind` that ended as `status`, with
/// its standard output and error output.
pub fn command_outcome(kind: CommandKind, status: CommandStatus, stdout: &str, stderr: &str) -> (r:
    Result<String, CoreError>)
    ensures
        outcome_ok(kind, status, stdout@, stderr@, r),
{
    match status {
        CommandStatus::Missing => {
            let message = join2(kind_program(kind), " not found");
            Err(CoreError::Unavailable { message })
        },
        CommandStatus::SpawnFailed => {
            let message = match kind {
                CommandKind::DeviceTool => "failed to execute kdeconnect-cli".to_owned(),
                CommandKind::Clipboard => "failed to execute wl-paste".to_owned(),
                CommandKind::BusGet => "failed to execute busctl".to_owned(),
                CommandKind::BusCall => "failed to execute busctl call".to_owned(),
                CommandKind::BusSet => "failed to execute busctl set-property".to_owned(),
            };
            Err(CoreError::Unavailable { message })
        },
        CommandStatus::Exited { success } => {
            if !success {
                let message = match kind {
                    CommandKind::Clipboard => "failed to read clipboard with wl-paste".to_owned(),
                    CommandKind::BusGet => "dbus property not available".to_owned(),
                    _ => {
                        let t = trim_chars(&chars_of(stderr));
                        if t.len() > 0 {
                            string_of(t.as_slice())
                        } else {
                            match kind {
                                CommandKind::DeviceTool => "kdeconnect-cli failed".to_owned(),
                                CommandKind::BusCall => "busctl call failed".to_owned(),
                                _ => "busctl set-property failed".to_owned(),
                            }
                        }
                    },
                };
                return Err(CoreError::Upstream { message });
            }
            match kind {
                CommandKind::DeviceTool => Ok(stdout.to_owned()),
                CommandKind::Clipboard => {
                    let t = trim_text(stdout);
                    if t.as_str().is_empty() {
                        Err(CoreError::EmptyShare)
                    } else {
                        Ok(t)
                    }
                },
                CommandKind::BusGet => Ok(trim_text(stdout)),
                _ => Ok(String::new()),
            }
        },
    }
}

/// A response to a request other than a state query: its outcome as `ok` and
/// a message, and no state.
pub open spec fn outcome_response(result: Result<String, CoreError>, r: IpcResponse) -> bool {
    &&& r.state is None
    &&& r.ok == result is Ok
    &&& r.message matches Some(m) && m@ == match result {
        Ok(m) => m@,
        Err(e) => error_text(e),
    }
}

/// The response that reports `result`.
pub fn into_response(result: Result<String, CoreError>) -> (r: IpcResponse)
    ensures
        outcome_response(result, r),
{
    match result {
        Ok(message) => IpcResponse { ok: true, message: Some(message), state: None },
        Err(err) => IpcResponse { ok: false, message: Some(err.message()), state: None },
    }
}

/// The response to a tool run that answers `ok_message` on success.
pub fn tool_response(outcome: Result<String, CoreError>, ok_message: String) -> (r: IpcResponse)
    ensures
        outcome_response(
            match outcome {
                Ok(_) => Ok(ok_message),
                Err(e) => Err(e),
            },
            r,
        ),
{
    match outcome {
        Ok(_) => into_response(Ok(ok_message)),
        Err(e) => into_response(Err(e)),
    }
}

/// What a request asks the daemon to do.
#[derive(Debug)]
pub enum Plan {
    /// Answer at once.
    Reply(IpcResponse),
    /// Run the device-link tool with `args`; on success answer `ok_message`.
    Tool { args: Vec<String>, ok_message: String },
    /// Read the clipboard, then share its text with `plan_share` to `device`.
    ReadClipboard { device: Option<String> },
    /// Run this mount operation, starting with `first`.
    Mount { task: MountTask, first: MountAction },
    /// Carry out this media plan.
    Media(MediaPlan),
}

pub open spec fn error_reply(r: Plan, e: CoreError) -> bool {
    r matches Plan::Reply(resp) && outcome_response(Err(e), resp)
}

pub open spec fn tool_plan(r: Plan, args: Seq<Seq<char>>, ok_message: Seq<char>) -> bool {
    r matches Plan::Tool { args: a, ok_message: m } && string_texts(a@) == args && m@ == ok_message
}

/// The plan of a share of `value` to the device that `res` resolved.
pub open spec fn share_plan_ok(value: Seq<char>, res: Result<String, CoreError>, r: Plan) -> bool {
    if trim(value).len() == 0 {
        error_reply(r, CoreError::EmptyShare)
    } else {
        match res {
            Err(e) => error_reply(r, e),
            Ok(dev) => tool_plan(
                r,
                seq!["--device"@, dev@, "--share"@, value],
                "Shared to "@ + dev@,
            ),
        }
    }
}

pub open spec fn mount_plan_ok(res: Result<String, CoreError>, goal: MountGoal, r: Plan) -> bool {
    match res {
        Err(e) => error_reply(r, e),
        Ok(dev) => r matches Plan::Mount { task, first } && task.device == dev && task.goal == goal
            && if goal is Toggle {
            task.phase is ToggleCheck && first is Observe
        } else {
            task.phase is MountCommand && (first matches MountAction::RunTool { args }
                && string_texts(args@) == mount_args(dev@))
        },
    }
}

pub open spec fn ping_text(message: Option<String>) -> Seq<char> {
    match message {
        Some(m) => m@,
        None => "Ping from Hyprconnect"@,
    }
}

/// What each request asks for, given the configured default device and the
/// current snapshot.
pub open spec fn plan_ok(
    req: IpcRequest,
    default_device: Option<String>,
    state: DaemonState,
    r: Plan,
) -> bool {
    let devs = state.devices@;
    match req {
        IpcRequest::GetState => r matches Plan::Reply(resp) && resp.ok && resp.message is None
            && (resp.state matches Some(s) && s.devices@ == devs && s.updated_at
            == state.updated_at),
        IpcRequest::ShareFile { path, device } => share_plan_ok(
            path@,
            resolution(devs, default_device, device),
            r,
        ),
        IpcRequest::ShareUrl { url, device } => share_plan_ok(
            url@,
            resolution(devs, default_device, device),
            r,
        ),
        IpcRequest::ShareClipboard { device } => r == Plan::ReadClipboard { device },
        IpcRequest::Ping { message, device } => match resolution(devs, default_device, device) {
            Err(e) => error_reply(r, e),
            Ok(dev) => tool_plan(
                r,
                seq!["--device"@, dev@, "--ping-msg"@, ping_text(message)],
                "Ping sent to "@ + dev@,
            ),
        },
        IpcRequest::Pair { device } => tool_plan(
            r,
            seq!["--device"@, device@, "--pair"@],
            "Pair request sent to "@ + device@,
        ),
        IpcRequest::Unpair { device } => tool_plan(
            r,
            seq!["--device"@, device@, "--unpair"@],
            "Unpaired "@ + device@,
        ),
        IpcRequest::Find { device } => match resolution(devs, default_device, device) {
            Err(e) => error_reply(r, e),
            Ok(dev) => tool_plan(r, seq!["--device"@, dev@, "--ring"@], "Ringing "@ + dev@),
        },
        IpcRequest::RefreshNetwork => tool_plan(
            r,
            seq!["--refresh"@],
            "Refreshed KDE Connect device discovery"@,
        ),
        IpcRequest::Mount { device } => mount_plan_ok(
            resolution(devs, default_device, device),
            MountGoal::Mount,
            r,
        ),
        IpcRequest::OpenMount { device } => mount_plan_ok(
            resolution(devs, default_device, device),
            MountGoal::OpenMount,
            r,
        ),
        IpcRequest::ToggleMount { device } => mount_plan_ok(
            resolution(devs, default_device, device),
            MountGoal::Toggle,
            r,
        ),
        IpcRequest::Media { device, action } => match resolution(devs, default_device, device) {
            Err(e) => error_reply(r, e),
            Ok(dev) => r matches Plan::Media(mp) && media_plan_ok(dev@, action, mp),
        },
    }
}

fn strings(a: &str, b: &str, c: &str) -> (r: Vec<String>)
    ensures
        string_texts(r@) == seq![a@, b@, c@],
{
    let mut r: Vec<String> = Vec::new();
    r.push(a.to_owned());
    r.push(b.to_owned());
    r.push(c.to_owned());
    assert(string_texts(r@) == seq![a@, b@, c@]);
    r
}

fn tool4(a: &str, b: &str, c: &str, d: &str, ok_message: String) -> (r: Plan)
    ensures
        tool_plan(r, seq![a@, b@, c@, d@], ok_message@),
{
    let mut args = strings(a, b, c);
    let ghost before = args@;
    args.push(d.to_owned());
    assert(string_texts(args@) == string_texts(before).push(d@));
    assert(seq![a@, b@, c@].push(d@) == seq![a@, b@, c@, d@]);
    Plan::Tool { args, ok_message }
}

fn tool3(a: &str, b: &str, c: &str, ok_message: String) -> (r: Plan)
    ensures
        tool_plan(r, seq![a@, b@, c@], ok_message@),
{
    Plan::Tool { args: strings(a, b, c), ok_message }
}

fn error_plan(e: CoreError) -> (r: Plan)
    ensures
        error_reply(r, e),
{
    Plan::Reply(into_response(Err(e)))
}

/// The plan of sharing `value` (a path, a URL or clipboard text) to `device`
/// or the resolved default; a blank value is refused before resolution.
pub fn plan_share(
    value: String,
    device: Option<String>,
    default_device: &Option<String>,
    state: &DaemonState,
) -> (r: Plan)
    ensures
        share_plan_ok(value@, resolution(state.devices@, *default_device, device), r),
{
    let t = trim_text(value.as_str());
    if t.as_str().is_empty() {
        return error_plan(CoreError::EmptyShare);
    }
    match resolve_device(state, default_device, device) {
        Err(e) => error_plan(e),
        Ok(dev) => {
            let m = join2("Shared to ", dev.as_str());
            tool4("--device", dev.as_str(), "--share", value.as_str(), m)
        },
    }
}

/// The plan of a clipboard share once the clipboard has been read.
pub fn plan_clipboard_share(
    clipboard: Result<String, CoreError>,
    device: Option<String>,
    default_device: &Option<String>,
    state: &DaemonState,
) -> (r: Plan)
    ensures
        match clipboard {
            Err(e) => error_reply(r, e),
            Ok(text) => share_plan_ok(text@, resolution(state.devices@, *default_device, device), r),
        },
{
    match clipboard {
        Err(e) => error_plan(e),
        Ok(text) => plan_share(text, device, default_device, state),
    }
}

fn plan_mount(res: Result<String, CoreError>, goal: MountGoal) -> (r: Plan)
    ensures
        mount_plan_ok(res, goal, r),
{
    match res {
        Err(e) => error_plan(e),
        Ok(dev) => {
            let (task, first) = MountTask::start(dev, goal);
            Plan::Mount { task, first }
        },
    }
}

/// What `req` asks for, given the configured default device and the current
/// snapshot. Only a state query is answered with the snapshot; every other
/// answer carries none.
pub fn plan_request(req: IpcRequest, default_device: &Option<String>, state: &DaemonState) -> (r:
    Plan)
    ensures
        plan_ok(req, *default_device, *state, r),
{
    match req {
        IpcRequest::GetState => Plan::Reply(
            IpcResponse { ok: true, message: None, state: Some(state.duplicate()) },
        ),
        IpcRequest::ShareFile { path, device } => plan_share(path, device, default_device, state),
        IpcRequest::ShareUrl { url, device } => plan_share(url, device, default_device, state),
        IpcRequest::ShareClipboard { device } => Plan::ReadClipboard { device },
        IpcRequest::Ping { message, device } => match resolve_device(state, default_device, device) {
            Err(e) => error_plan(e),
            Ok(dev) => {
                let text = match message {
                    Some(m) => m,
                    None => "Ping from Hyprconnect".to_owned(),
                };
                let m = join2("Ping sent to ", dev.as_str());
                tool4("--device", dev.as_str(), "--ping-msg", text.as_str(), m)
            },
        },
        IpcRequest::Pair { device } => {
            let m = join2("Pair request sent to ", device.as_str());
            tool3("--device", device.as_str(), "--pair", m)
        },
        IpcRequest::Unpair { device } => {
            let m = join2("Unpaired ", device.as_str());
            tool3("--device", device.as_str(), "--unpair", m)
        },
        IpcRequest::Find { device } => match resolve_device(state, default_device, device) {
            Err(e) => error_plan(e),
            Ok(dev) => {
                let m = join2("Ringing ", dev.as_str());
                tool3("--device", dev.as_str(), "--ring", m)
            },
        },
        IpcRequest::RefreshNetwork => {
            let mut args: Vec<String> = Vec::new();
            args.push("--refresh".to_owned());
            assert(string_texts(args@) == seq!["--refresh"@]);
            Plan::Tool { args, ok_message: "Refreshed KDE Connect device discovery".to_owned() }
        },
        IpcRequest::Mount { device } => plan_mount(
            resolve_device(state, default_device, device),
            MountGoal::Mount,
        ),
        IpcRequest::OpenMount { device } => plan_mount(
            resolve_device(state, default_device, device),
            MountGoal::OpenMount,
        ),
        IpcRequest::ToggleMount { device } => plan_mount(
            resolve_device(state, default_device, device),
            MountGoal::Toggle,
        ),
        IpcRequest::Media { device, action } => match resolve_device(state, default_device, device) {
            Err(e) => error_plan(e),
            Ok(dev) => Plan::Media(plan_media(dev.as_str(), action)),
        },
    }
}

/// Only a state query is answered with a snapshot: the plan of a state query
/// is an immediate answer carrying the snapshot, and every immediate answer to
/// any other request, like every response built from an outcome, carries none.
pub proof fn lemma_state_only_for_state_queries(
    req: IpcRequest,
    default_device: Option<String>,
    state: DaemonState,
    r: Plan,
    result: Result<String, CoreError>,
    resp: IpcResponse,
)
    requires
        plan_ok(req, default_device, state, r),
        outcome_response(result, resp),
    ensures
        req is GetState ==> (r matches Plan::Reply(a) && a.state is Some),
        !(req is GetState) && r is Reply ==> r->Reply_0.state is None,
        resp.state is None,
{
}

} // verus!
