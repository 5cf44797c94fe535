//! The holder of the current snapshot: a snapshot is installed whole or not
//! at all, and only a fully formed one.
use vstd::prelude::*;
use crate::model::{device_wf, snapshot_wf, DaemonState, DeviceState};

verus! {

/// Holder of the current snapshot; it only ever holds a fully formed one.
/// A read takes `&self` and a replacement `&mut self`, so under a
/// reader/writer lock readers share it, a replacement holds it alone for the
/// swap, and no read overlaps a replacement: a read sees one installed
/// snapshot, whole.
pub struct StateStore {
    snapshot: DaemonState,
}

fn device_ok(d: &DeviceState) -> (r: bool)
    ensures
        r == device_wf(*d),
{
    let point_ok = match &d.mount_point {
        Some(p) => !p.as_str().is_empty(),
        None => !d.mounted,
    };
    let battery_ok = match d.battery_percent {
        Some(b) => b <= 100,
        None => true,
    };
    let signal_ok = match d.signal_percent {
        Some(s) => s <= 100,
        None => true,
    };
    point_ok && battery_ok && signal_ok
}

/// Whether `s` is a fully formed snapshot: every record consistent and the
/// identifiers unique.
pub fn is_fully_formed(s: &DaemonState) -> (r: bool)
    ensures
        r == snapshot_wf(*s),
{
    let n = s.devices.len();
    let mut i: usize = 0;
    while i < n
        invariant
            i <= n == s.devices@.len(),
            forall|k: int| 0 <= k < i ==> device_wf(#[trigger] s.devices@[k]),
            forall|a: int, b: int|
                0 <= a < i && a < b < n ==> #[trigger] s.devices@[a].id@
                    != #[trigger] s.devices@[b].id@,
        decreases n - i,
    {
        if !device_ok(&s.devices[i]) {
            return false;
        }
        let mut j = i + 1;
        while j < n
            invariant
                i < n == s.devices@.len(),
                i + 1 <= j <= n,
                forall|b: int| i < b < j ==> s.devices@[i as int].id@ != #[trigger] s.devices@[b].id@,
            decreases n - j,
        {
            if s.devices[i].id == s.devices[j].id {
                return false;
            }
            j = j + 1;
        }
        i = i + 1;
    }
    true
}

impl StateStore {
    #[verifier::type_invariant]
    spec fn holds_fully_formed(self) -> bool {
        snapshot_wf(self.snapshot)
    }

    /// The snapshot last installed.
    pub closed spec fn current(&self) -> DaemonState {
        self.snapshot
    }

    /// A store holding the empty snapshot of a daemon that has not
    /// reconciled yet.
    pub fn new() -> (r: StateStore)
        ensures
            r.current().devices@.len() == 0,
            r.current().updated_at is None,
    {
        StateStore { snapshot: DaemonState::empty() }
    }

    /// An independent copy of the snapshot last installed, which is always
    /// fully formed.
    pub fn read(&self) -> (r: DaemonState)
        ensures
            r.devices@ == self.current().devices@,
            r.updated_at == self.current().updated_at,
            snapshot_wf(r),
    {
        proof {
            use_type_invariant(self);
        }
        self.snapshot.duplicate()
    }

    /// Installs `next` as the current snapshot when it is fully formed, and
    /// says whether it did; a refused snapshot leaves the current one in place.
    pub fn replace(&mut self, next: DaemonState) -> (installed: bool)
        ensures
            installed == snapshot_wf(next),
            installed ==> final(self).current() == next,
            !installed ==> final(self).current() == old(self).current(),
    {
        if !is_fully_formed(&next) {
            return false;
        }
        self.snapshot = next;
        true
    }
}

} // verus!
