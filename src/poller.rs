//! One reconciliation cycle: from the tool's replies to a new snapshot, and
//! the connect/disconnect transitions between two snapshots.
use vstd::prelude::*;
use crate::devices::{
    device_entries, id_lines, pair_texts, parse_device_list, parse_reachable_ids, battery_for, battery_percent, mount_point_from_reply, mount_point_of, observe_mount,
    observed_mounted, signal_for, signal_percent, string_texts,
};
use crate::model::{
    device_views, device_wf, opt_text, snapshot_wf, DaemonState, DeviceState, DeviceView,
};
use crate::error::{join2, CoreError};
use crate::text::lines;
use crate::media::{get_args, get_property_args, plugin_object_path, plugin_path};
use crate::reply::{
    bool_reply_value, int_reply_value, parse_dbus_bool, parse_dbus_int, parse_dbus_string,
    string_reply_value,
};

verus! {

/// What the per-device queries of one cycle returned for a paired device;
/// each reply is absent when its query failed.
pub struct DeviceReplies {
    pub id: String,
    pub name: String,
    /// Output of the mount-point query.
    pub mount_reply: Option<String>,
    /// Bus reply for the battery charge.
    pub charge_reply: Option<String>,
    /// Bus reply for the charging flag.
    pub charging_reply: Option<String>,
    /// Bus reply for the cellular strength, in bars.
    pub strength_reply: Option<String>,
    /// Bus reply for the cellular network type.
    pub network_reply: Option<String>,
}

pub open spec fn reply_int(o: Option<String>) -> Option<i32> {
    match o {
        Some(r) => int_reply_value(r@),
        None => None,
    }
}

pub open spec fn reply_bool(o: Option<String>) -> Option<bool> {
    match o {
        Some(r) => bool_reply_value(r@),
        None => None,
    }
}

pub open spec fn reply_string(o: Option<String>) -> Option<Seq<char>> {
    match o {
        Some(r) => string_reply_value(r@),
        None => None,
    }
}

pub open spec fn reply_mount_point(o: Option<String>) -> Option<Seq<char>> {
    match o {
        Some(r) => mount_point_of(r@),
        None => None,
    }
}

/// The record of a paired device.
pub open spec fn paired_view(
    rep: DeviceReplies,
    reach: Seq<Seq<char>>,
    table: Option<String>,
) -> DeviceView {
    DeviceView {
        id: rep.id@,
        name: rep.name@,
        reachable: reach.contains(rep.id@),
        paired: true,
        mounted: observed_mounted(reply_mount_point(rep.mount_reply), table),
        mount_point: reply_mount_point(rep.mount_reply),
        battery_percent: battery_for(reply_int(rep.charge_reply)),
        charging: reply_bool(rep.charging_reply),
        signal_percent: signal_for(reply_int(rep.strength_reply)),
        network_type: reply_string(rep.network_reply),
    }
}

/// The record of a reachable device that is not paired.
pub open spec fn placeholder_view(id: Seq<char>) -> DeviceView {
    DeviceView {
        id: id,
        name: id,
        reachable: true,
        paired: false,
        mounted: false,
        mount_point: None,
        battery_percent: None,
        charging: None,
        signal_percent: None,
        network_type: None,
    }
}

pub open spec fn has_id(devs: Seq<DeviceView>, id: Seq<char>) -> bool {
    exists|i: int| 0 <= i < devs.len() && #[trigger] devs[i].id == id
}

/// The records of the paired devices in list order; a repeated identifier
/// keeps its first record.
pub open spec fn paired_views(
    ps: Seq<DeviceReplies>,
    reach: Seq<Seq<char>>,
    table: Option<String>,
) -> Seq<DeviceView>
    decreases ps.len(),
{
    if ps.len() == 0 {
        Seq::empty()
    } else {
        let rest = paired_views(ps.drop_last(), reach, table);
        if has_id(rest, ps.last().id@) {
            rest
        } else {
            rest.push(paired_view(ps.last(), reach, table))
        }
    }
}

/// `devs` followed by a placeholder for each reachable identifier that has
/// no record yet.
pub open spec fn with_placeholders(devs: Seq<DeviceView>, reach: Seq<Seq<char>>) -> Seq<
    DeviceView,
>
    decreases reach.len(),
{
    if reach.len() == 0 {
        devs
    } else {
        let rest = with_placeholders(devs, reach.drop_last());
        if has_id(rest, reach.last()) {
            rest
        } else {
            rest.push(placeholder_view(reach.last()))
        }
    }
}

/// The devices of the snapshot that one cycle produces.
pub open spec fn cycle_devices(
    ps: Seq<DeviceReplies>,
    reach: Seq<Seq<char>>,
    table: Option<String>,
) -> Seq<DeviceView> {
    with_placeholders(paired_views(ps, reach, table), reach)
}

fn position_of(devs: &Vec<DeviceState>, id: &String) -> (r: bool)
    ensures
        r == has_id(device_views(devs@), id@),
{
    let mut i: usize = 0;
    while i < devs.len()
        invariant
            i <= devs.len(),
            forall|k: int| 0 <= k < i ==> #[trigger] devs@[k].id@ != id@,
        decreases devs.len() - i,
    {
        if devs[i].id == *id {
            assert(device_views(devs@)[i as int].id == id@);
            return true;
        }
        i = i + 1;
    }
    proof {
        if has_id(device_views(devs@), id@) {
            let k = choose|k: int|
                0 <= k < device_views(devs@).len() && #[trigger] device_views(devs@)[k].id == id@;
            assert(devs@[k].id@ == id@);
        }
    }
    false
}

fn contains_text(v: &Vec<String>, s: &String) -> (r: bool)
    ensures
        r == string_texts(v@).contains(s@),
{
    let mut i: usize = 0;
    while i < v.len()
        invariant
            i <= v.len(),
            forall|k: int| 0 <= k < i ==> #[trigger] v@[k]@ != s@,
        decreases v.len() - i,
    {
        if v[i] == *s {
            assert(string_texts(v@)[i as int] == s@);
            return true;
        }
        i = i + 1;
    }
    proof {
        if string_texts(v@).contains(s@) {
            let k = choose|k: int|
                0 <= k < string_texts(v@).len() && #[trigger] string_texts(v@)[k] == s@;
            assert(v@[k]@ == s@);
        }
    }
    false
}

fn int_of_reply(o: &Option<String>) -> (r: Option<i32>)
    ensures
        r == reply_int(*o),
{
    match o {
        Some(s) => parse_dbus_int(s.as_str()),
        None => None,
    }
}

fn paired_record(rep: &DeviceReplies, reachable: &Vec<String>, table: &Option<String>) -> (r:
    DeviceState)
    ensures
        r@ == paired_view(*rep, string_texts(reachable@), *table),
        device_wf(r),
{
    let point = match &rep.mount_reply {
        Some(out) => mount_point_from_reply(out.as_str()),
        None => None,
    };
    let obs = observe_mount(point, table);
    let charging = match &rep.charging_reply {
        Some(s) => parse_dbus_bool(s.as_str()),
        None => None,
    };
    let network_type = match &rep.network_reply {
        Some(s) => parse_dbus_string(s.as_str()),
        None => None,
    };
    DeviceState {
        id: rep.id.clone(),
        name: rep.name.clone(),
        reachable: contains_text(reachable, &rep.id),
        paired: true,
        mounted: obs.mounted,
        mount_point: obs.mount_point,
        battery_percent: battery_percent(int_of_reply(&rep.charge_reply)),
        charging,
        signal_percent: signal_percent(int_of_reply(&rep.strength_reply)),
        network_type,
    }
}

fn placeholder_record(id: &String) -> (r: DeviceState)
    ensures
        r@ == placeholder_view(id@),
        device_wf(r),
{
    DeviceState {
        id: id.clone(),
        name: id.clone(),
        reachable: true,
        paired: false,
        mounted: false,
        mount_point: None,
        battery_percent: None,
        charging: None,
        signal_percent: None,
        network_type: None,
    }
}

/// Assembles the snapshot of one cycle, taken at `updated_at`: a record for
/// each paired device, then a placeholder for each reachable identifier
/// without one.
pub fn reconcile(
    paired: &Vec<DeviceReplies>,
    reachable: &Vec<String>,
    mount_table: &Option<String>,
    updated_at: i64,
) -> (r: DaemonState)
    ensures
        device_views(r.devices@) == cycle_devices(paired@, string_texts(reachable@), *mount_table),
        r.updated_at == Some(updated_at),
        snapshot_wf(r),
{
    let ghost reach = string_texts(reachable@);
    let mut devices: Vec<DeviceState> = Vec::new();
    let mut i: usize = 0;
    while i < paired.len()
        invariant
            i <= paired.len(),
            reach == string_texts(reachable@),
            device_views(devices@) == paired_views(paired@.take(i as int), reach, *mount_table),
            forall|k: int| 0 <= k < devices@.len() ==> device_wf(#[trigger] devices@[k]),
            forall|a: int, b: int|
                0 <= a < b < devices@.len() ==> #[trigger] devices@[a].id@
                    != #[trigger] devices@[b].id@,
        decreases paired.len() - i,
    {
        assert(paired@.take(i as int + 1).drop_last() == paired@.take(i as int));
        assert(paired@.take(i as int + 1).last() == paired@[i as int]);
        if !position_of(&devices, &paired[i].id) {
            let rec = paired_record(&paired[i], reachable, mount_table);
            let ghost before = devices@;
            devices.push(rec);
            proof {
                assert(device_views(devices@) == device_views(before).push(rec@));
                assert forall|a: int| 0 <= a < before.len() implies #[trigger] before[a].id@
                    != rec.id@ by {
                    assert(device_views(before)[a].id == before[a].id@);
                }
            }
        }
        i = i + 1;
    }
    assert(paired@.take(paired.len() as int) == paired@);
    let ghost base = device_views(devices@);
    let mut j: usize = 0;
    while j < reachable.len()
        invariant
            j <= reachable.len(),
            reach == string_texts(reachable@),
            device_views(devices@) == with_placeholders(base, reach.take(j as int)),
            forall|k: int| 0 <= k < devices@.len() ==> device_wf(#[trigger] devices@[k]),
            forall|a: int, b: int|
                0 <= a < b < devices@.len() ==> #[trigger] devices@[a].id@
                    != #[trigger] devices@[b].id@,
        decreases reachable.len() - j,
    {
        assert(reach.take(j as int + 1).drop_last() == reach.take(j as int));
        assert(reach.take(j as int + 1).last() == reachable@[j as int]@);
        if !position_of(&devices, &reachable[j]) {
            let rec = placeholder_record(&reachable[j]);
            let ghost before = devices@;
            devices.push(rec);
            proof {
                assert(device_views(devices@) == device_views(before).push(rec@));
                assert forall|a: int| 0 <= a < before.len() implies #[trigger] before[a].id@
                    != rec.id@ by {
                    assert(device_views(before)[a].id == before[a].id@);
                }
            }
        }
        j = j + 1;
    }
    assert(reach.take(reachable.len() as int) == reach);
    DaemonState { devices, updated_at: Some(updated_at) }
}


proof fn lemma_paired_ids(ps: Seq<DeviceReplies>, reach: Seq<Seq<char>>, table: Option<String>, id: Seq<char>)
    requires
        forall|i: int| 0 <= i < ps.len() ==> #[trigger] ps[i].id@ != id,
    ensures
        !has_id(paired_views(ps, reach, table), id),
    decreases ps.len(),
{
    if ps.len() > 0 {
        lemma_paired_ids(ps.drop_last(), reach, table, id);
        assert(ps[ps.len() - 1].id@ != id);
        let rest = paired_views(ps.drop_last(), reach, table);
        if !has_id(rest, ps.last().id@) {
            let all = rest.push(paired_view(ps.last(), reach, table));
            assert forall|k: int| 0 <= k < all.len() implies #[trigger] all[k].id != id by {
                if k < rest.len() {
                    assert(all[k] == rest[k]);
                }
            }
        }
    }
}

proof fn lemma_placeholders_shape(devs: Seq<DeviceView>, reach: Seq<Seq<char>>)
    ensures
        with_placeholders(devs, reach).len() >= devs.len(),
        forall|k: int|
            0 <= k < with_placeholders(devs, reach).len() ==> if k < devs.len() {
                #[trigger] with_placeholders(devs, reach)[k] == devs[k]
            } else {
                with_placeholders(devs, reach)[k] == placeholder_view(
                    with_placeholders(devs, reach)[k].id,
                )
            },
    decreases reach.len(),
{
    if reach.len() > 0 {
        lemma_placeholders_shape(devs, reach.drop_last());
    }
}

proof fn lemma_placeholders_cover(devs: Seq<DeviceView>, reach: Seq<Seq<char>>, id: Seq<char>)
    requires
        reach.contains(id),
    ensures
        has_id(with_placeholders(devs, reach), id),
    decreases reach.len(),
{
    let rest = with_placeholders(devs, reach.drop_last());
    if reach.last() == id {
        if !has_id(rest, id) {
            let all = rest.push(placeholder_view(id));
            assert(all[rest.len() as int].id == id);
        } else {
            let k = choose|k: int| 0 <= k < rest.len() && #[trigger] rest[k].id == id;
            assert(with_placeholders(devs, reach)[k].id == id);
        }
    } else {
        let i = choose|i: int| 0 <= i < reach.len() && reach[i] == id;
        assert(reach.drop_last()[i] == id);
        lemma_placeholders_cover(devs, reach.drop_last(), id);
        let k = choose|k: int| 0 <= k < rest.len() && #[trigger] rest[k].id == id;
        if !has_id(rest, reach.last()) {
            assert(rest.push(placeholder_view(reach.last()))[k].id == id);
        }
        assert(with_placeholders(devs, reach)[k].id == id);
    }
}

/// A reachable identifier that no paired device carries appears in the
/// cycle's snapshot as an unpaired, reachable record with every optional
/// field absent and the identifier as its name.
pub proof fn lemma_unpaired_reachable_listed(
    ps: Seq<DeviceReplies>,
    reach: Seq<Seq<char>>,
    table: Option<String>,
    id: Seq<char>,
)
    requires
        reach.contains(id),
        forall|i: int| 0 <= i < ps.len() ==> #[trigger] ps[i].id@ != id,
    ensures
        exists|k: int|
            0 <= k < cycle_devices(ps, reach, table).len() && #[trigger] cycle_devices(
                ps,
                reach,
                table,
            )[k] == placeholder_view(id),
{
    let devs = paired_views(ps, reach, table);
    lemma_paired_ids(ps, reach, table, id);
    lemma_placeholders_cover(devs, reach, id);
    lemma_placeholders_shape(devs, reach);
    let all = with_placeholders(devs, reach);
    let k = choose|k: int| 0 <= k < all.len() && #[trigger] all[k].id == id;
    if k < devs.len() {
        assert(all[k] == devs[k]);
        assert(devs[k].id == id);
    }
    assert(all[k] == placeholder_view(id));
    assert(cycle_devices(ps, reach, table) == all);
    assert(cycle_devices(ps, reach, table)[k] == placeholder_view(id));
}

/// Relies on chrono's conversion `DateTime::<Utc>::from(SystemTime)` of
/// `SystemTime::now()` (which handles a clock set before 1970) and on
/// `DateTime::timestamp_millis`: the current time in milliseconds since the
/// Unix epoch. Nothing is promised of its value.
#[verifier::external_body]
fn utc_now_millis() -> (r: i64) {
    chrono::DateTime::<chrono::Utc>::from(std::time::SystemTime::now()).timestamp_millis()
}

/// One cycle's snapshot, stamped with the current time.
pub fn reconcile_now(
    paired: &Vec<DeviceReplies>,
    reachable: &Vec<String>,
    mount_table: &Option<String>,
) -> (r: DaemonState)
    ensures
        device_views(r.devices@) == cycle_devices(paired@, string_texts(reachable@), *mount_table),
        r.updated_at is Some,
        snapshot_wf(r),
{
    let now = utc_now_millis();
    reconcile(paired, reachable, mount_table, now)
}

/// The snapshot installed when the device-link tool is unavailable: no
/// devices, taken at `now`.
pub fn empty_snapshot_at(now: i64) -> (r: DaemonState)
    ensures
        r.devices@.len() == 0,
        r.updated_at == Some(now),
        snapshot_wf(r),
{
    DaemonState { devices: Vec::new(), updated_at: Some(now) }
}

/// The snapshot installed when the device-link tool is missing altogether: no
/// devices, stamped with the current time.
pub fn unavailable_snapshot() -> (r: DaemonState)
    ensures
        r.devices@.len() == 0,
        r.updated_at is Some,
        snapshot_wf(r),
{
    empty_snapshot_at(utc_now_millis())
}

/// How a cycle goes on once the two list queries have answered.
#[derive(Debug)]
pub enum CycleStart {
    /// A list query failed: the tool is unavailable, and this empty snapshot
    /// is installed.
    Unavailable(DaemonState),
    /// Both lists came back: the paired (identifier, name) entries and the
    /// reachable identifiers.
    Listed { paired: Vec<(String, String)>, reachable: Vec<String> },
}

/// What the outcomes of the paired-device query `names` and the reachable
/// query `reachable` lead to: the parsed lists when both succeeded, else the
/// empty snapshot taken at `now`.
pub fn begin_cycle(
    names: &Result<String, CoreError>,
    reachable: &Result<String, CoreError>,
    now: i64,
) -> (r: CycleStart)
    ensures
        match (names, reachable) {
            (Ok(n), Ok(a)) => r matches CycleStart::Listed { paired, reachable: ids } && pair_texts(
                paired@,
            ) == device_entries(lines(n@)) && string_texts(ids@) == id_lines(lines(a@)),
            _ => r matches CycleStart::Unavailable(snap) && snap.devices@.len() == 0
                && snap.updated_at == Some(now) && snapshot_wf(snap),
        },
{
    match (names, reachable) {
        (Ok(n), Ok(a)) => CycleStart::Listed {
            paired: parse_device_list(n.as_str()),
            reachable: parse_reachable_ids(a.as_str()),
        },
        _ => CycleStart::Unavailable(empty_snapshot_at(now)),
    }
}

/// `begin_cycle` with the empty snapshot stamped with the current time.
pub fn begin_cycle_now(names: &Result<String, CoreError>, reachable: &Result<String, CoreError>) -> (r:
    CycleStart)
    ensures
        match (names, reachable) {
            (Ok(n), Ok(a)) => r matches CycleStart::Listed { paired, reachable: ids } && pair_texts(
                paired@,
            ) == device_entries(lines(n@)) && string_texts(ids@) == id_lines(lines(a@)),
            _ => r matches CycleStart::Unavailable(snap) && snap.devices@.len() == 0
                && snap.updated_at is Some && snapshot_wf(snap),
        },
{
    begin_cycle(names, reachable, utc_now_millis())
}

/// Whether the last record of `devs` with identifier `id` was reachable; a
/// device without a record counts as unreachable.
pub open spec fn was_reachable(devs: Seq<DeviceState>, id: Seq<char>) -> bool
    decreases devs.len(),
{
    if devs.len() == 0 {
        false
    } else if devs.last().id@ == id {
        devs.last().reachable
    } else {
        was_reachable(devs.drop_last(), id)
    }
}

/// A device that came online (`connected`) or went offline between two
/// snapshots, with the name to announce it under.
pub struct ConnectionChange {
    pub name: String,
    pub connected: bool,
}

/// The transitions from `prev` to `next`, in the order of `next`, as
/// (name, now reachable).
pub open spec fn transitions(prev: Seq<DeviceState>, next: Seq<DeviceState>) -> Seq<
    (Seq<char>, bool),
>
    decreases next.len(),
{
    if next.len() == 0 {
        Seq::empty()
    } else {
        let rest = transitions(prev, next.drop_last());
        let d = next.last();
        if was_reachable(prev, d.id@) != d.reachable {
            rest.push((d.name@, d.reachable))
        } else {
            rest
        }
    }
}

pub open spec fn change_views(v: Seq<ConnectionChange>) -> Seq<(Seq<char>, bool)> {
    v.map_values(|c: ConnectionChange| (c.name@, c.connected))
}

fn reachable_before(prev: &Vec<DeviceState>, id: &String) -> (r: bool)
    ensures
        r == was_reachable(prev@, id@),
{
    let mut j = prev.len();
    assert(prev@.take(j as int) == prev@);
    while j > 0
        invariant
            j <= prev.len(),
            was_reachable(prev@, id@) == was_reachable(prev@.take(j as int), id@),
        decreases j,
    {
        assert(prev@.take(j as int).drop_last() == prev@.take(j - 1));
        if prev[j - 1].id == *id {
            return prev[j - 1].reachable;
        }
        j = j - 1;
    }
    false
}

/// The connect/disconnect announcements due between two snapshots; none when
/// notifications are off.
pub fn connection_changes(prev: &DaemonState, next: &DaemonState, enabled: bool) -> (r: Vec<
    ConnectionChange,
>)
    ensures
        change_views(r@) == if enabled {
            transitions(prev.devices@, next.devices@)
        } else {
            Seq::empty()
        },
{
    let mut out: Vec<ConnectionChange> = Vec::new();
    if !enabled {
        assert(change_views(out@) == Seq::<(Seq<char>, bool)>::empty());
        return out;
    }
    let mut i: usize = 0;
    while i < next.devices.len()
        invariant
            i <= next.devices.len(),
            change_views(out@) == transitions(prev.devices@, next.devices@.take(i as int)),
        decreases next.devices.len() - i,
    {
        let ghost n = next.devices@.take(i as int + 1);
        assert(n.drop_last() == next.devices@.take(i as int));
        assert(n.last() == next.devices@[i as int]);
        let d = &next.devices[i];
        if reachable_before(&prev.devices, &d.id) != d.reachable {
            let ghost before = out@;
            out.push(ConnectionChange { name: d.name.clone(), connected: d.reachable });
            assert(change_views(out@) == change_views(before).push((d.name@, d.reachable)));
        }
        i = i + 1;
    }
    assert(next.devices@.take(next.devices.len() as int) == next.devices@);
    out
}

impl ConnectionChange {
    /// The text of the announcement.
    pub fn body(&self) -> (r: &'static str)
        ensures
            r@ == if self.connected {
                "Phone connected"@
            } else {
                "Phone disconnected"@
            },
    {
        if self.connected {
            "Phone connected"
        } else {
            "Phone disconnected"
        }
    }
}


/// A per-device property that a cycle reads over the bus.
#[derive(Debug, Clone, Copy, PartialEq, Eq)]
pub enum DeviceProperty {
    Charge,
    Charging,
    CellularStrength,
    CellularType,
}

pub open spec fn property_plugin(p: DeviceProperty) -> Seq<char> {
    match p {
        DeviceProperty::Charge | DeviceProperty::Charging => "battery"@,
        _ => "connectivity_report"@,
    }
}

pub open spec fn property_iface(p: DeviceProperty) -> Seq<char> {
    match p {
        DeviceProperty::Charge | DeviceProperty::Charging => "org.kde.kdeconnect.device.battery"@,
        _ => "org.kde.kdeconnect.device.connectivity_report"@,
    }
}

pub open spec fn property_member(p: DeviceProperty) -> Seq<char> {
    match p {
        DeviceProperty::Charge => "charge"@,
        DeviceProperty::Charging => "isCharging"@,
        DeviceProperty::CellularStrength => "cellularNetworkStrength"@,
        DeviceProperty::CellularType => "cellularNetworkType"@,
    }
}

/// The `busctl` arguments that read property `p` of device `dev`.
pub fn device_property_args(dev: &str, p: DeviceProperty) -> (r: Vec<String>)
    ensures
        string_texts(r@) == get_args(
            plugin_path(dev@, property_plugin(p)),
            property_iface(p),
            property_member(p),
        ),
{
    let (plugin, iface, member) = match p {
        DeviceProperty::Charge => ("battery", "org.kde.kdeconnect.device.battery", "charge"),
        DeviceProperty::Charging => ("battery", "org.kde.kdeconnect.device.battery", "isCharging"),
        DeviceProperty::CellularStrength => (
            "connectivity_report",
            "org.kde.kdeconnect.device.connectivity_report",
            "cellularNetworkStrength",
        ),
        DeviceProperty::CellularType => (
            "connectivity_report",
            "org.kde.kdeconnect.device.connectivity_report",
            "cellularNetworkType",
        ),
    };
    let path = plugin_object_path(dev, plugin);
    get_property_args(path.as_str(), iface, member)
}

/// The `busctl` arguments that read the plugins device `dev` supports.
pub fn supported_plugins_args(dev: &str) -> (r: Vec<String>)
    ensures
        string_texts(r@) == get_args(
            "/modules/kdeconnect/devices/"@ + dev@,
            "org.kde.kdeconnect.device"@,
            "supportedPlugins"@,
        ),
{
    let path = join2("/modules/kdeconnect/devices/", dev);
    get_property_args(path.as_str(), "org.kde.kdeconnect.device", "supportedPlugins")
}

fn tool_args2(a: &str, b: &str) -> (r: Vec<String>)
    ensures
        string_texts(r@) == seq![a@, b@],
{
    let mut r: Vec<String> = Vec::new();
    r.push(a.to_owned());
    r.push(b.to_owned());
    assert(string_texts(r@) == seq![a@, b@]);
    r
}

/// The device-link tool arguments that list the paired devices.
pub fn list_devices_args() -> (r: Vec<String>)
    ensures
        string_texts(r@) == seq!["--list-devices"@, "--id-name-only"@],
{
    tool_args2("--list-devices", "--id-name-only")
}

/// The device-link tool arguments that list the reachable identifiers.
pub fn list_reachable_args() -> (r: Vec<String>)
    ensures
        string_texts(r@) == seq!["--list-available"@, "--id-only"@],
{
    tool_args2("--list-available", "--id-only")
}

/// The device-link tool arguments that ask for the mount point of `dev`.
pub fn mount_point_args(dev: &str) -> (r: Vec<String>)
    ensures
        string_texts(r@) == seq!["--device"@, dev@, "--get-mount-point"@],
{
    let mut r = tool_args2("--device", dev);
    let ghost before = r@;
    r.push("--get-mount-point".to_owned());
    assert(string_texts(r@) == string_texts(before).push("--get-mount-point"@));
    assert(seq!["--device"@, dev@].push("--get-mount-point"@) == seq![
        "--device"@,
        dev@,
        "--get-mount-point"@,
    ]);
    r
}

} // verus!
