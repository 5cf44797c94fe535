//! Choice of the device that a control operation targets.
use vstd::prelude::*;
use crate::error::CoreError;
use crate::model::{actionable, actionable_id, first_actionable_at, DaemonState, DeviceState};

verus! {

/// Whether some device of `devs` with identifier `id` is paired and reachable.
pub fn is_actionable_id(devs: &Vec<DeviceState>, id: &String) -> (r: bool)
    ensures
        r == actionable_id(devs@, id@),
{
    let mut i: usize = 0;
    while i < devs.len()
        invariant
            i <= devs.len(),
            forall|k: int|
                0 <= k < i ==> !(#[trigger] devs@[k].id@ == id@ && actionable(devs@[k])),
        decreases devs.len() - i,
    {
        if devs[i].paired && devs[i].reachable && devs[i].id == *id {
            return true;
        }
        i = i + 1;
    }
    false
}

/// The position of the first actionable device, when there is one.
pub open spec fn first_actionable(devs: Seq<DeviceState>) -> int {
    choose|i: int| first_actionable_at(devs, i)
}

/// The device a control operation acts on. An explicit request is honoured
/// only when that device is paired and reachable, and is never redirected;
/// without one, the configured default when it is actionable, else the first
/// actionable device of the snapshot.
pub open spec fn resolution(
    devs: Seq<DeviceState>,
    default_device: Option<String>,
    requested: Option<String>,
) -> Result<String, CoreError> {
    match requested {
        Some(id) => if actionable_id(devs, id@) {
            Ok(id)
        } else {
            Err(CoreError::NotActionable { device: id })
        },
        None => match default_device {
            Some(d) if actionable_id(devs, d@) => Ok(d),
            _ => if exists|i: int| 0 <= i < devs.len() && actionable(#[trigger] devs[i]) {
                Ok(devs[first_actionable(devs)].id)
            } else {
                Err(CoreError::NoActionableDevice)
            },
        },
    }
}

/// The precedence of target resolution: an explicit identifier that is not
/// paired and reachable is an error, never redirected; a valid explicit one is
/// chosen whatever the default; without one a valid default is chosen; else
/// the first paired and reachable device in snapshot order; else an error.
pub proof fn lemma_resolution_precedence(
    devs: Seq<DeviceState>,
    default_device: Option<String>,
    requested: Option<String>,
)
    ensures
        requested is Some && !actionable_id(devs, requested->Some_0@) ==> resolution(
            devs,
            default_device,
            requested,
        ) == Err::<String, CoreError>(CoreError::NotActionable { device: requested->Some_0 }),
        requested is Some && actionable_id(devs, requested->Some_0@) ==> resolution(
            devs,
            default_device,
            requested,
        ) == Ok::<String, CoreError>(requested->Some_0),
        requested is None && default_device is Some && actionable_id(devs, default_device->Some_0@)
            ==> resolution(devs, default_device, requested) == Ok::<String, CoreError>(
            default_device->Some_0,
        ),
        requested is None && !(default_device is Some && actionable_id(
            devs,
            default_device->Some_0@,
        )) && (exists|i: int| 0 <= i < devs.len() && actionable(#[trigger] devs[i])) ==> exists|
            i: int,
        |
            first_actionable_at(devs, i) && resolution(devs, default_device, requested)
                == Ok::<String, CoreError>(#[trigger] devs[i].id),
        requested is None && !(default_device is Some && actionable_id(
            devs,
            default_device->Some_0@,
        )) && !(exists|i: int| 0 <= i < devs.len() && actionable(#[trigger] devs[i]))
            ==> resolution(devs, default_device, requested) == Err::<String, CoreError>(
            CoreError::NoActionableDevice,
        ),
{
    if requested is None && !(default_device is Some && actionable_id(
        devs,
        default_device->Some_0@,
    )) && (exists|i: int| 0 <= i < devs.len() && actionable(#[trigger] devs[i])) {
        lemma_first_exists(devs);
    }
}

proof fn lemma_first_exists(devs: Seq<DeviceState>)
    requires
        exists|i: int| 0 <= i < devs.len() && actionable(#[trigger] devs[i]),
    ensures
        first_actionable_at(devs, first_actionable(devs)),
{
    let w = choose|i: int| 0 <= i < devs.len() && actionable(#[trigger] devs[i]);
    lemma_first_below(devs, w);
}

proof fn lemma_first_below(devs: Seq<DeviceState>, w: int)
    requires
        0 <= w < devs.len(),
        actionable(devs[w]),
    ensures
        exists|i: int| first_actionable_at(devs, i),
    decreases w,
{
    if exists|j: int| 0 <= j < w && actionable(#[trigger] devs[j]) {
        let j = choose|j: int| 0 <= j < w && actionable(#[trigger] devs[j]);
        lemma_first_below(devs, j);
    } else {
        assert(first_actionable_at(devs, w));
    }
}

/// The device a control operation acts on; see `resolution`.
pub fn resolve_device(
    state: &DaemonState,
    default_device: &Option<String>,
    requested: Option<String>,
) -> (r: Result<String, CoreError>)
    ensures
        r == resolution(state.devices@, *default_device, requested),
{
    let devs = &state.devices;
    if let Some(id) = requested {
        if is_actionable_id(devs, &id) {
            return Ok(id);
        }
        return Err(CoreError::NotActionable { device: id });
    }
    if let Some(d) = default_device {
        if is_actionable_id(devs, d) {
            return Ok(d.clone());
        }
    }
    let mut i: usize = 0;
    while i < state.devices.len()
        invariant
            i <= state.devices.len(),
            forall|k: int| 0 <= k < i ==> !actionable(#[trigger] state.devices@[k]),
            requested is None,
            default_device matches Some(d) ==> !actionable_id(state.devices@, d@),
        decreases state.devices.len() - i,
    {
        if state.devices[i].reachable && state.devices[i].paired {
            let found = state.devices[i].id.clone();
            assert(first_actionable_at(state.devices@, i as int));
            assert(Ok::<String, CoreError>(found) == Ok::<String, CoreError>(
                state.devices@[i as int].id,
            ));
            return Ok(found);
        }
        i = i + 1;
    }
    Err(CoreError::NoActionableDevice)
}

} // verus!
