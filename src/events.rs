//! Which bus signals call for a refresh, and the debounce that spaces the
//! refreshes they trigger.
use vstd::prelude::*;
use crate::text::{chars_of, same_chars, starts_with_chars};

verus! {

/// Width of the debounce window, in milliseconds.
pub const DEBOUNCE_MS: u64 = 200;

/// Pause before subscribing again after the signal subscription failed, in
/// milliseconds.
pub const RESUBSCRIBE_BACKOFF_MS: u64 = 2000;

/// The (interface, member) pairs that announce a change of reachability,
/// pairing, battery or connectivity.
pub open spec fn refresh_signal(interface: Seq<char>, member: Seq<char>) -> bool {
    ||| interface == "org.kde.kdeconnect.device"@ && (member == "reachableChanged"@ || member
        == "pairStateChanged"@)
    ||| interface == "org.kde.kdeconnect.device.battery"@ && member == "refreshed"@
    ||| interface == "org.kde.kdeconnect.device.connectivity_report"@ && member == "refreshed"@
}

fn text_is(s: &str, lit: &str) -> (r: bool)
    ensures
        r == (s@ == lit@),
{
    let a = chars_of(s);
    let b = chars_of(lit);
    same_chars(a.as_slice(), b.as_slice())
}

/// Whether a signal of `interface` named `member` calls for a refresh.
pub fn is_refresh_signal(interface: &str, member: &str) -> (r: bool)
    ensures
        r == refresh_signal(interface@, member@),
{
    proof {
        reveal_strlit("org.kde.kdeconnect.device");
        reveal_strlit("org.kde.kdeconnect.device.battery");
        reveal_strlit("org.kde.kdeconnect.device.connectivity_report");
        assert("org.kde.kdeconnect.device"@.len() == 25);
        assert("org.kde.kdeconnect.device.battery"@.len() == 33);
        assert("org.kde.kdeconnect.device.connectivity_report"@[26] == 'c');
        assert("org.kde.kdeconnect.device.battery"@[26] == 'b');
    }
    if text_is(interface, "org.kde.kdeconnect.device") {
        return text_is(member, "reachableChanged") || text_is(member, "pairStateChanged");
    }
    if text_is(interface, "org.kde.kdeconnect.device.battery") {
        return text_is(member, "refreshed");
    }
    if text_is(interface, "org.kde.kdeconnect.device.connectivity_report") {
        return text_is(member, "refreshed");
    }
    false
}

/// The object paths under which the per-device objects live.
pub open spec fn device_path(path: Seq<char>) -> bool {
    let p = "/modules/kdeconnect/devices/"@;
    p.len() <= path.len() && path.take(p.len() as int) == p
}

pub fn is_device_path(path: &str) -> (r: bool)
    ensures
        r == device_path(path@),
{
    let v = chars_of(path);
    let p = chars_of("/modules/kdeconnect/devices/");
    starts_with_chars(v.as_slice(), p.as_slice())
}

/// Whether a bus message qualifies: a signal, under the per-device path
/// namespace, with an allowed (interface, member) pair. A missing interface or
/// member is passed as empty.
pub open spec fn qualifying(
    is_signal: bool,
    path: Option<Seq<char>>,
    interface: Seq<char>,
    member: Seq<char>,
) -> bool {
    &&& is_signal
    &&& path matches Some(p) && device_path(p)
    &&& refresh_signal(interface, member)
}

/// A trigger at `now` is accepted after the last accepted one at `last`.
pub open spec fn admits(last: Option<u64>, now: u64) -> bool {
    match last {
        None => true,
        Some(t) => now >= t && now - t >= DEBOUNCE_MS,
    }
}

/// The last accepted time and the number of accepted triggers after a run of
/// triggers at `times`, starting from `last`.
pub open spec fn debounce_run(last: Option<u64>, times: Seq<u64>) -> (Option<u64>, nat)
    decreases times.len(),
{
    if times.len() == 0 {
        (last, 0)
    } else {
        let (l, n) = debounce_run(last, times.drop_last());
        if admits(l, times.last()) {
            (Some(times.last()), n + 1)
        } else {
            (l, n)
        }
    }
}

/// Debounce of refresh triggers: a trigger inside the window that follows the
/// last accepted one is dropped; the first one after it is accepted.
pub struct Debouncer {
    pub last_accepted_ms: Option<u64>,
}

impl Debouncer {
    /// A debouncer that accepts its first trigger.
    pub fn new() -> (r: Debouncer)
        ensures
            r.last_accepted_ms is None,
    {
        Debouncer { last_accepted_ms: None }
    }

    /// Whether a trigger at `now_ms` (a monotonic clock) is accepted.
    pub fn accept(&mut self, now_ms: u64) -> (r: bool)
        ensures
            r == admits(old(self).last_accepted_ms, now_ms),
            final(self).last_accepted_ms == if r {
                Some(now_ms)
            } else {
                old(self).last_accepted_ms
            },
    {
        let ok = match self.last_accepted_ms {
            None => true,
            Some(t) => now_ms >= t && now_ms - t >= DEBOUNCE_MS,
        };
        if ok {
            self.last_accepted_ms = Some(now_ms);
        }
        ok
    }
}

/// Two qualifying triggers from a fresh debouncer give two refreshes exactly
/// when the second comes at least a debounce window after the first, and one
/// refresh otherwise.
pub proof fn lemma_debounce_pair(t: u64, d: u64)
    requires
        t + d <= u64::MAX,
    ensures
        debounce_run(None, seq![t, (t + d) as u64]).1 == if d >= DEBOUNCE_MS {
            2nat
        } else {
            1nat
        },
{
    let times = seq![t, (t + d) as u64];
    assert(times.drop_last() == seq![t]);
    assert(seq![t].drop_last() == Seq::<u64>::empty());
    assert(debounce_run(None, Seq::<u64>::empty()) == (None::<u64>, 0nat));
    assert(debounce_run(None, seq![t]) == (Some(t), 1nat));
}

/// The event watcher's decisions: which bus messages qualify, and which
/// qualifying ones trigger a refresh.
pub struct EventWatcher {
    pub debouncer: Debouncer,
}

impl EventWatcher {
    pub fn new() -> (r: EventWatcher)
        ensures
            r.debouncer.last_accepted_ms is None,
    {
        EventWatcher { debouncer: Debouncer::new() }
    }

    /// Whether the bus message received at `now_ms` triggers a refresh.
    pub fn on_message(
        &mut self,
        is_signal: bool,
        path: Option<&str>,
        interface: &str,
        member: &str,
        now_ms: u64,
    ) -> (r: bool)
        ensures
            r == (qualifying(
                is_signal,
                match path {
                    Some(p) => Some(p@),
                    None => None,
                },
                interface@,
                member@,
            ) && admits(old(self).debouncer.last_accepted_ms, now_ms)),
            final(self).debouncer.last_accepted_ms == if r {
                Some(now_ms)
            } else {
                old(self).debouncer.last_accepted_ms
            },
    {
        if !is_signal {
            return false;
        }
        let p = match path {
            Some(p) => p,
            None => {
                return false;
            },
        };
        if !is_device_path(p) || !is_refresh_signal(interface, member) {
            return false;
        }
        self.debouncer.accept(now_ms)
    }
}

} // verus!
