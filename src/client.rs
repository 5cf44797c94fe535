//! What the control client shows: the status-bar payload, status lines, and
//! the text of a response.
use vstd::prelude::*;
use crate::error::join2;
use crate::media::or_text;
use crate::model::{opt_text, DaemonState, DeviceState, IpcResponse, WaybarPayload};
use crate::text::{chars_of, contains_chars, decimal, decimal_text, occurs_in};

verus! {

/// `v` as a percentage, or `fallback` when absent.
pub open spec fn percent_or(v: Option<u8>, fallback: Seq<char>) -> Seq<char> {
    match v {
        Some(x) => decimal(x as nat) + "%"@,
        None => fallback,
    }
}

pub fn percent_text(v: Option<u8>, fallback: &str) -> (r: String)
    ensures
        r@ == percent_or(v, fallback@),
{
    match v {
        Some(x) => {
            let mut r = decimal_text(x as u64);
            r.append("%");
            r
        },
        None => fallback.to_owned(),
    }
}

/// The cellular-signal glyph for a signal percentage.
pub open spec fn signal_glyph(signal_percent: Option<u8>) -> Seq<char> {
    match signal_percent {
        Some(v) => if v >= 75 {
            "\u{f08fa}"@
        } else if v >= 50 {
            "\u{f08f8}"@
        } else if v >= 30 {
            "\u{f08f6}"@
        } else if v >= 10 {
            "\u{f08f4}"@
        } else {
            "\u{f08fe}"@
        },
        None => "\u{f08fe}"@,
    }
}

pub fn cellular_signal_icon(signal_percent: Option<u8>) -> (r: &'static str)
    ensures
        r@ == signal_glyph(signal_percent),
{
    match signal_percent {
        Some(v) => if v >= 75 {
            "\u{f08fa}"
        } else if v >= 50 {
            "\u{f08f8}"
        } else if v >= 30 {
            "\u{f08f6}"
        } else if v >= 10 {
            "\u{f08f4}"
        } else {
            "\u{f08fe}"
        },
        None => "\u{f08fe}",
    }
}

/// Number of reachable devices.
pub open spec fn count_reachable(devs: Seq<DeviceState>) -> nat
    decreases devs.len(),
{
    if devs.len() == 0 {
        0
    } else {
        count_reachable(devs.drop_last()) + if devs.last().reachable {
            1nat
        } else {
            0nat
        }
    }
}

/// `i` is the first reachable position of `devs`.
pub open spec fn first_reachable_at(devs: Seq<DeviceState>, i: int) -> bool {
    &&& 0 <= i < devs.len()
    &&& devs[i].reachable
    &&& forall|j: int| 0 <= j < i ==> !(#[trigger] devs[j]).reachable
}

pub open spec fn battery_class(b: Option<u8>) -> Seq<char> {
    match b {
        Some(v) => if v < 30 {
            "crit"@
        } else if v < 50 {
            "warn"@
        } else {
            "ok"@
        },
        None => "ok"@,
    }
}

pub open spec fn yes_no(b: bool) -> Seq<char> {
    if b {
        "Yes"@
    } else {
        "No"@
    }
}

/// The payload that shows device `d` with `n` devices connected.
pub open spec fn device_payload(d: DeviceState, n: nat, r: WaybarPayload) -> bool {
    let battery = percent_or(d.battery_percent, "--"@);
    &&& r.text@ == signal_glyph(d.signal_percent) + " \u{f011c}"@ + (if d.mounted {
        " \u{f06f3}"@
    } else {
        Seq::empty()
    }) + " "@ + battery + (if d.charging == Some(true) {
        " \u{f0e7}"@
    } else {
        Seq::empty()
    })
    &&& r.class@ == battery_class(d.battery_percent)
    &&& r.tooltip@ == d.name@ + "\nBattery: "@ + battery + "\nStatus: "@ + (if d.reachable {
        "Connected"@
    } else {
        "Offline"@
    }) + "\nPaired: "@ + yes_no(d.paired) + "\nMounted: "@ + yes_no(d.mounted)
        + "\nMount point: "@ + (if d.mounted {
        or_text(opt_text(d.mount_point), "--"@)
    } else {
        "--"@
    }) + "\nSignal: "@ + percent_or(d.signal_percent, "--"@) + "\nNetwork: "@ + or_text(
        opt_text(d.network_type),
        "Unknown"@,
    ) + "\nDevices connected: "@ + decimal(n)
}

/// The status-bar payload of a snapshot: offline when no device is
/// reachable, else the first reachable device with the number connected.
pub open spec fn payload_ok(state: DaemonState, r: WaybarPayload) -> bool {
    let devs = state.devices@;
    if count_reachable(devs) == 0 {
        r.text@ == "\u{f0130}"@ && r.tooltip@ == "Phone: offline"@ && r.class@ == "disconnected"@
    } else {
        exists|i: int|
            first_reachable_at(devs, i) && device_payload(
                #[trigger] devs[i],
                count_reachable(devs),
                r,
            )
    }
}

proof fn lemma_count_bound(devs: Seq<DeviceState>)
    ensures
        count_reachable(devs) <= devs.len(),
        count_reachable(devs) > 0 <==> exists|i: int| 0 <= i < devs.len() && (#[trigger] devs[i]).reachable,
    decreases devs.len(),
{
    if devs.len() > 0 {
        lemma_count_bound(devs.drop_last());
        if exists|i: int| 0 <= i < devs.len() - 1 && (#[trigger] devs.drop_last()[i]).reachable {
            let i = choose|i: int| 0 <= i < devs.len() - 1 && (#[trigger] devs.drop_last()[i]).reachable;
            assert(devs[i].reachable);
        }
        if exists|i: int| 0 <= i < devs.len() && (#[trigger] devs[i]).reachable {
            let i = choose|i: int| 0 <= i < devs.len() && (#[trigger] devs[i]).reachable;
            if i < devs.len() - 1 {
                assert(devs.drop_last()[i].reachable);
            }
        }
    }
}

fn device_payload_of(d: &DeviceState, n: usize) -> (r: WaybarPayload)
    ensures
        device_payload(*d, n as nat, r),
{
    let battery = percent_text(d.battery_percent, "--");
    let mut text = join2(cellular_signal_icon(d.signal_percent), " \u{f011c}");
    let ghost t0 = text@;
    if d.mounted {
        text.append(" \u{f06f3}");
    } else {
        assert(t0 + Seq::<char>::empty() == t0);
    }
    text.append(" ");
    text.append(battery.as_str());
    let ghost t1 = text@;
    if d.charging == Some(true) {
        text.append(" \u{f0e7}");
    } else {
        assert(t1 + Seq::<char>::empty() == t1);
    }
    let class = match d.battery_percent {
        Some(b) => if b < 30 {
            "crit"
        } else if b < 50 {
            "warn"
        } else {
            "ok"
        },
        None => "ok",
    }.to_owned();
    let mut tooltip = join2(d.name.as_str(), "\nBattery: ");
    tooltip.append(battery.as_str());
    tooltip.append("\nStatus: ");
    tooltip.append(if d.reachable { "Connected" } else { "Offline" });
    tooltip.append("\nPaired: ");
    tooltip.append(if d.paired { "Yes" } else { "No" });
    tooltip.append("\nMounted: ");
    tooltip.append(if d.mounted { "Yes" } else { "No" });
    tooltip.append("\nMount point: ");
    if d.mounted {
        match &d.mount_point {
            Some(p) => tooltip.append(p.as_str()),
            None => tooltip.append("--"),
        }
    } else {
        tooltip.append("--");
    }
    tooltip.append("\nSignal: ");
    tooltip.append(percent_text(d.signal_percent, "--").as_str());
    tooltip.append("\nNetwork: ");
    match &d.network_type {
        Some(t) => tooltip.append(t.as_str()),
        None => tooltip.append("Unknown"),
    }
    tooltip.append("\nDevices connected: ");
    tooltip.append(decimal_text(n as u64).as_str());
    WaybarPayload { text, tooltip, class }
}

/// The status-bar payload of a snapshot.
pub fn build_waybar_payload(state: &DaemonState) -> (r: WaybarPayload)
    ensures
        payload_ok(*state, r),
{
    let devs = &state.devices;
    let mut n: usize = 0;
    let mut first: Option<usize> = None;
    let mut i: usize = 0;
    while i < state.devices.len()
        invariant
            i <= state.devices.len(),
            n == count_reachable(state.devices@.take(i as int)),
            n <= i,
            match first {
                Some(f) => first_reachable_at(state.devices@, f as int) && f < i,
                None => forall|j: int| 0 <= j < i ==> !(#[trigger] state.devices@[j]).reachable,
            },
        decreases state.devices.len() - i,
    {
        assert(state.devices@.take(i as int + 1).drop_last() == state.devices@.take(i as int));
        if state.devices[i].reachable {
            n = n + 1;
            if first.is_none() {
                first = Some(i);
            }
        }
        i = i + 1;
    }
    assert(state.devices@.take(state.devices.len() as int) == state.devices@);
    match first {
        Some(f) => {
            let r = device_payload_of(&devs[f], n);
            proof {
                lemma_count_bound(state.devices@);
                assert(state.devices@[f as int].reachable);
                assert(count_reachable(state.devices@) > 0);
            }
            assert(device_payload(state.devices@[f as int], count_reachable(state.devices@), r));
            r
        },
        None => {
            proof {
                lemma_count_bound(state.devices@);
            }
            WaybarPayload {
                text: "\u{f0130}".to_owned(),
                tooltip: "Phone: offline".to_owned(),
                class: "disconnected".to_owned(),
            }
        },
    }
}

/// The line of the printed status for one device.
pub open spec fn status_line(d: DeviceState) -> Seq<char> {
    "- "@ + d.name@ + " ("@ + d.id@ + ") :: "@ + (if d.reachable {
        "connected"@
    } else {
        "offline"@
    }) + " / "@ + (if d.paired {
        "paired"@
    } else {
        "unpaired"@
    }) + " :: battery "@ + percent_or(d.battery_percent, "n/a"@)
}

pub fn device_status_line(d: &DeviceState) -> (r: String)
    ensures
        r@ == status_line(*d),
{
    let mut r = join2("- ", d.name.as_str());
    r.append(" (");
    r.append(d.id.as_str());
    r.append(") :: ");
    r.append(if d.reachable { "connected" } else { "offline" });
    r.append(" / ");
    r.append(if d.paired { "paired" } else { "unpaired" });
    r.append(" :: battery ");
    r.append(percent_text(d.battery_percent, "n/a").as_str());
    r
}

/// The printed status of a snapshot: a count, then one line per device.
pub fn status_lines(state: &DaemonState) -> (r: Vec<String>)
    ensures
        r@.len() == state.devices@.len() + 1,
        r@[0]@ == "Hyprconnect devices: "@ + decimal(state.devices@.len()),
        forall|k: int|
            0 <= k < state.devices@.len() ==> (#[trigger] r@[k + 1])@ == status_line(
                state.devices@[k],
            ),
{
    let mut r: Vec<String> = Vec::new();
    r.push(join2("Hyprconnect devices: ", decimal_text(state.devices.len() as u64).as_str()));
    let mut i: usize = 0;
    while i < state.devices.len()
        invariant
            i <= state.devices.len(),
            r@.len() == i + 1,
            r@[0]@ == "Hyprconnect devices: "@ + decimal(state.devices@.len()),
            forall|k: int| 0 <= k < i ==> (#[trigger] r@[k + 1])@ == status_line(state.devices@[k]),
        decreases state.devices.len() - i,
    {
        r.push(device_status_line(&state.devices[i]));
        i = i + 1;
    }
    r
}

/// The line of the device listing for one device.
pub fn device_list_line(d: &DeviceState) -> (r: String)
    ensures
        r@ == d.name@ + " ("@ + d.id@ + ") - "@ + (if d.reachable {
            "connected"@
        } else {
            "offline"@
        }) + " - battery "@ + percent_or(d.battery_percent, "n/a"@),
{
    let mut r = join2(d.name.as_str(), " (");
    r.append(d.id.as_str());
    r.append(") - ");
    r.append(if d.reachable { "connected" } else { "offline" });
    r.append(" - battery ");
    r.append(percent_text(d.battery_percent, "n/a").as_str());
    r
}

/// The line of the reachable-device listing for one device.
pub fn available_line(d: &DeviceState) -> (r: String)
    ensures
        r@ == d.name@ + " ("@ + d.id@ + ") - "@ + (if d.paired {
            "paired"@
        } else {
            "unpaired"@
        }),
{
    let mut r = join2(d.name.as_str(), " (");
    r.append(d.id.as_str());
    r.append(") - ");
    r.append(if d.paired { "paired" } else { "unpaired" });
    r
}

/// The text a response is shown as: its message, or a fallback that says
/// whether it succeeded.
pub fn response_text(resp: &IpcResponse) -> (r: String)
    ensures
        r@ == match resp.message {
            Some(m) => m@,
            None => if resp.ok {
                "ok"@
            } else {
                "action failed"@
            },
        },
{
    match &resp.message {
        Some(m) => m.clone(),
        None => if resp.ok {
            "ok".to_owned()
        } else {
            "action failed".to_owned()
        },
    }
}

/// The device a diagnostic run inspects: the first reachable one, else the
/// first one.
pub fn diagnostic_target(state: &DaemonState) -> (r: Option<usize>)
    ensures
        match r {
            Some(i) => first_reachable_at(state.devices@, i as int) || (i == 0
                && state.devices@.len() > 0 && forall|j: int|
                0 <= j < state.devices@.len() ==> !(#[trigger] state.devices@[j]).reachable),
            None => state.devices@.len() == 0,
        },
{
    let mut i: usize = 0;
    while i < state.devices.len()
        invariant
            i <= state.devices.len(),
            forall|j: int| 0 <= j < i ==> !(#[trigger] state.devices@[j]).reachable,
        decreases state.devices.len() - i,
    {
        if state.devices[i].reachable {
            return Some(i);
        }
        i = i + 1;
    }
    if state.devices.len() > 0 {
        Some(0)
    } else {
        None
    }
}

/// Whether a supported-plugins reply names `plugin`.
pub fn plugin_listed(reply: &str, plugin: &str) -> (r: bool)
    ensures
        r == occurs_in(plugin@, reply@),
{
    contains_chars(&chars_of(reply), &chars_of(plugin))
}

/// One line of a diagnostic report.
pub fn report_line(label: &str, ok: bool) -> (r: String)
    ensures
        r@ == label@ + ": "@ + (if ok {
            "ok"@
        } else {
            "missing/fail"@
        }),
{
    let mut r = join2(label, ": ");
    r.append(if ok { "ok" } else { "missing/fail" });
    r
}

} // verus!
