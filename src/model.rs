//! The device snapshot, the configuration and the request/response schema.
use vstd::prelude::*;

verus! {

/// One companion device as the last reconciliation saw it.
#[derive(Debug, Clone, PartialEq, Eq)]
pub struct DeviceState {
    pub id: String,
    pub name: String,
    pub reachable: bool,
    pub paired: bool,
    pub mounted: bool,
    pub mount_point: Option<String>,
    pub battery_percent: Option<u8>,
    pub charging: Option<bool>,
    pub signal_percent: Option<u8>,
    pub network_type: Option<String>,
}

/// The whole snapshot: the devices in order, and when it was taken, in
/// milliseconds since the Unix epoch (UTC).
#[derive(Debug, Clone, PartialEq, Eq)]
pub struct DaemonState {
    pub devices: Vec<DeviceState>,
    pub updated_at: Option<i64>,
}

/// Settings read once at startup.
#[derive(Debug, Clone, PartialEq, Eq)]
pub struct Config {
    pub default_device: Option<String>,
    pub poll_interval_seconds: u64,
    pub battery_warn_percent: u8,
    pub battery_crit_percent: u8,
    pub notifications_enabled: bool,
}

/// One action on the device's remote media player.
#[derive(Debug, Clone, PartialEq, Eq)]
pub enum MediaAction {
    Status,
    PlayPause,
    Next,
    Previous,
    Stop,
    Seek { ms: i32 },
    VolumeSet { value: u8 },
    PlayerList,
    PlayerSet { name: String },
}

/// A request of the local control channel.
#[derive(Debug, Clone, PartialEq, Eq)]
pub enum IpcRequest {
    GetState,
    ShareFile { path: String, device: Option<String> },
    ShareUrl { url: String, device: Option<String> },
    ShareClipboard { device: Option<String> },
    Ping { message: Option<String>, device: Option<String> },
    Pair { device: String },
    Unpair { device: String },
    Find { device: Option<String> },
    RefreshNetwork,
    Mount { device: Option<String> },
    OpenMount { device: Option<String> },
    ToggleMount { device: Option<String> },
    Media { device: Option<String>, action: MediaAction },
}

/// The answer to one request.
#[derive(Debug, Clone, PartialEq, Eq)]
pub struct IpcResponse {
    pub ok: bool,
    pub message: Option<String>,
    pub state: Option<DaemonState>,
}

/// What a status-bar module shows.
#[derive(Debug, Clone, PartialEq, Eq)]
pub struct WaybarPayload {
    pub text: String,
    pub tooltip: String,
    pub class: String,
}

/// Smallest accepted poll interval, in seconds.
pub const MIN_POLL_INTERVAL_SECONDS: u64 = 10;

impl Default for Config {
    fn default() -> (r: Config)
        ensures
            r.default_device is None,
            r.poll_interval_seconds == 10,
            r.battery_warn_percent == 30,
            r.battery_crit_percent == 15,
            r.notifications_enabled,
    {
        Config {
            default_device: None,
            poll_interval_seconds: 10,
            battery_warn_percent: 30,
            battery_crit_percent: 15,
            notifications_enabled: true,
        }
    }
}

impl Config {
    /// The poll interval in force: the configured one, raised to the minimum.
    pub fn poll_interval(&self) -> (r: u64)
        ensures
            r == if self.poll_interval_seconds < MIN_POLL_INTERVAL_SECONDS {
                MIN_POLL_INTERVAL_SECONDS
            } else {
                self.poll_interval_seconds
            },
    {
        if self.poll_interval_seconds < MIN_POLL_INTERVAL_SECONDS {
            MIN_POLL_INTERVAL_SECONDS
        } else {
            self.poll_interval_seconds
        }
    }
}

/// A device record as plain values.
pub struct DeviceView {
    pub id: Seq<char>,
    pub name: Seq<char>,
    pub reachable: bool,
    pub paired: bool,
    pub mounted: bool,
    pub mount_point: Option<Seq<char>>,
    pub battery_percent: Option<u8>,
    pub charging: Option<bool>,
    pub signal_percent: Option<u8>,
    pub network_type: Option<Seq<char>>,
}

pub open spec fn opt_text(o: Option<String>) -> Option<Seq<char>> {
    match o {
        Some(s) => Some(s@),
        None => None,
    }
}

impl View for DeviceState {
    type V = DeviceView;

    open spec fn view(&self) -> DeviceView {
        DeviceView {
            id: self.id@,
            name: self.name@,
            reachable: self.reachable,
            paired: self.paired,
            mounted: self.mounted,
            mount_point: opt_text(self.mount_point),
            battery_percent: self.battery_percent,
            charging: self.charging,
            signal_percent: self.signal_percent,
            network_type: opt_text(self.network_type),
        }
    }
}

/// The records of a device sequence as plain values.
pub open spec fn device_views(s: Seq<DeviceState>) -> Seq<DeviceView> {
    s.map_values(|d: DeviceState| d@)
}

/// A device may be the target of a control operation.
pub open spec fn actionable(d: DeviceState) -> bool {
    d.paired && d.reachable
}

/// Some device of `devs` with identifier `id` is actionable.
pub open spec fn actionable_id(devs: Seq<DeviceState>, id: Seq<char>) -> bool {
    exists|i: int| 0 <= i < devs.len() && #[trigger] devs[i].id@ == id && actionable(devs[i])
}

/// `i` is the first actionable position of `devs`.
pub open spec fn first_actionable_at(devs: Seq<DeviceState>, i: int) -> bool {
    &&& 0 <= i < devs.len()
    &&& actionable(devs[i])
    &&& forall|j: int| 0 <= j < i ==> !actionable(#[trigger] devs[j])
}

/// A device record that is internally consistent.
pub open spec fn device_wf(d: DeviceState) -> bool {
    &&& d.mounted ==> d.mount_point is Some
    &&& d.mount_point matches Some(p) ==> p@.len() > 0
    &&& d.battery_percent matches Some(b) ==> b <= 100
    &&& d.signal_percent matches Some(s) ==> s <= 100
}

/// A fully formed snapshot: every record consistent, identifiers unique.
pub open spec fn snapshot_wf(s: DaemonState) -> bool {
    &&& forall|i: int| 0 <= i < s.devices@.len() ==> device_wf(#[trigger] s.devices@[i])
    &&& forall|i: int, j: int|
        0 <= i < j < s.devices@.len() ==> #[trigger] s.devices@[i].id@ != #[trigger] s.devices@[j].id@
}

pub fn copy_text(o: &Option<String>) -> (r: Option<String>)
    ensures
        r == *o,
{
    match o {
        Some(s) => Some(s.clone()),
        None => None,
    }
}

impl DeviceState {
    /// A copy of this record, field for field.
    pub fn duplicate(&self) -> (r: DeviceState)
        ensures
            r == *self,
    {
        DeviceState {
            id: self.id.clone(),
            name: self.name.clone(),
            reachable: self.reachable,
            paired: self.paired,
            mounted: self.mounted,
            mount_point: copy_text(&self.mount_point),
            battery_percent: self.battery_percent,
            charging: self.charging,
            signal_percent: self.signal_percent,
            network_type: copy_text(&self.network_type),
        }
    }
}

impl DaemonState {
    /// The snapshot of a daemon that has not reconciled yet: no devices, no time.
    pub fn empty() -> (r: DaemonState)
        ensures
            r.devices@.len() == 0,
            r.updated_at is None,
            snapshot_wf(r),
    {
        DaemonState { devices: Vec::new(), updated_at: None }
    }

    /// An independent copy of this snapshot.
    pub fn duplicate(&self) -> (r: DaemonState)
        ensures
            r.devices@ == self.devices@,
            r.updated_at == self.updated_at,
    {
        let mut devices: Vec<DeviceState> = Vec::new();
        let mut i: usize = 0;
        while i < self.devices.len()
            invariant
                i <= self.devices.len(),
                devices@ == self.devices@.take(i as int),
            decreases self.devices.len() - i,
        {
            devices.push(self.devices[i].duplicate());
            assert(self.devices@.take(i as int + 1) == self.devices@.take(i as int).push(
                self.devices@[i as int],
            ));
            i = i + 1;
        }
        assert(self.devices@.take(self.devices.len() as int) == self.devices@);
        DaemonState { devices, updated_at: self.updated_at }
    }
}

} // verus!
