//! The mount lifecycle: mount, open and toggle as a state machine whose
//! outside work (tool runs, observations, waits, unmount commands, the file
//! opener, a refresh) the caller performs and reports back. Every wait for
//! convergence is bounded by a deadline.
use vstd::prelude::*;
use crate::devices::{string_texts, MountObservation};
use crate::error::{join2, join3, CoreError};

verus! {

/// Pause between two observations of a convergence wait, in milliseconds.
pub const POLL_INTERVAL_MS: u64 = 100;

/// Longest a convergence wait may take, in milliseconds.
pub const CONVERGENCE_TIMEOUT_MS: u64 = 1400;

/// The internal-storage directory below a device's mount root.
pub open spec fn storage_path(mount: Seq<char>) -> Seq<char> {
    mount + "/storage/emulated/0"@
}

/// The internal-storage directory below the mount root `mount_point`.
pub fn internal_storage_path(mount_point: &str) -> (r: String)
    ensures
        r@ == storage_path(mount_point@),
{
    join2(mount_point, "/storage/emulated/0")
}

/// The end of a wait that begins at `now`.
pub open spec fn deadline_after(now: u64) -> u64 {
    if now > u64::MAX - CONVERGENCE_TIMEOUT_MS {
        u64::MAX
    } else {
        (now + CONVERGENCE_TIMEOUT_MS) as u64
    }
}

/// How a convergence wait stands after one check.
#[derive(Debug, Clone, Copy, PartialEq, Eq)]
pub enum WaitVerdict {
    TimedOut,
    Converged,
    Pending,
}

/// A check that sees convergence ends the wait; one that does not, at or past
/// the deadline, fails it.
pub open spec fn wait_verdict(deadline: u64, now: u64, converged: bool) -> WaitVerdict {
    if converged {
        WaitVerdict::Converged
    } else if now >= deadline {
        WaitVerdict::TimedOut
    } else {
        WaitVerdict::Pending
    }
}

pub fn judge_wait(deadline: u64, now: u64, converged: bool) -> (r: WaitVerdict)
    ensures
        r == wait_verdict(deadline, now, converged),
{
    if converged {
        WaitVerdict::Converged
    } else if now >= deadline {
        WaitVerdict::TimedOut
    } else {
        WaitVerdict::Pending
    }
}

/// A convergence wait ends by its deadline: of checks spaced one poll
/// interval apart from the start of a wait, the fifteenth times out unless it
/// sees convergence.
pub proof fn lemma_wait_bounded(start: u64, times: Seq<u64>)
    requires
        start <= u64::MAX - CONVERGENCE_TIMEOUT_MS,
        times.len() >= 15,
        times[0] >= start,
        forall|k: int|
            0 <= k < times.len() - 1 ==> #[trigger] times[k + 1] >= times[k] + POLL_INTERVAL_MS,
    ensures
        wait_verdict(deadline_after(start), times[14], false) == WaitVerdict::TimedOut,
{
    assert forall|k: int| 0 <= k < 15 implies #[trigger] times[k] >= start + k * 100 by {
        lemma_spaced(start, times, k);
    }
}

proof fn lemma_spaced(start: u64, times: Seq<u64>, k: int)
    requires
        0 <= k < times.len(),
        times[0] >= start,
        forall|j: int|
            0 <= j < times.len() - 1 ==> #[trigger] times[j + 1] >= times[j] + POLL_INTERVAL_MS,
    ensures
        times[k] >= start + k * 100,
    decreases k,
{
    if k > 0 {
        lemma_spaced(start, times, k - 1);
        assert(times[(k - 1) + 1] >= times[k - 1] + POLL_INTERVAL_MS);
    }
}

/// What the caller asked for.
#[derive(Debug, Clone, Copy, PartialEq, Eq)]
pub enum MountGoal {
    /// Mount and report the mount root.
    Mount,
    /// Mount, then open the internal-storage directory.
    OpenMount,
    /// Unmount when mounted, else mount and open; refresh afterwards.
    Toggle,
}

/// Where an operation stands.
#[derive(Debug, PartialEq, Eq)]
pub enum MountPhase {
    /// The mount command runs.
    MountCommand,
    /// Waiting for the device to show as mounted.
    AwaitMounted { deadline: u64 },
    /// The storage directory's existence is being checked.
    CheckStorage { target: String },
    /// The opener is being started on the storage directory.
    Opening { target: String },
    /// The current mount state is being observed to pick a branch.
    ToggleCheck,
    /// The primary unmount tool runs.
    UnmountPrimary { path: String },
    /// The fallback unmount tool runs.
    UnmountSecondary { path: String },
    /// Waiting for the device to show as unmounted.
    AwaitUnmounted { path: String, deadline: u64 },
    /// A refresh runs; the outcome is reported after it.
    Refreshing { outcome: Result<String, CoreError> },
    /// Finished.
    Done,
}

/// One mount, open or toggle operation on a device.
#[derive(Debug, PartialEq, Eq)]
pub struct MountTask {
    pub device: String,
    pub goal: MountGoal,
    pub phase: MountPhase,
}

/// What the caller reports after performing an action.
pub enum MountEvent {
    /// The device-link tool finished; its output or failure.
    ToolFinished(Result<String, CoreError>),
    /// A check of the device's mount state.
    Observed(MountObservation),
    /// The requested pause is over.
    Slept,
    /// An unmount command finished; whether it succeeded.
    CommandFinished(bool),
    /// Whether the storage directory exists.
    StorageChecked(bool),
    /// Whether the opener could be started.
    OpenerSpawned(bool),
    /// The requested refresh is done.
    Refreshed,
}

/// What the caller must do next.
#[derive(Debug)]
pub enum MountAction {
    /// Run the device-link tool with these arguments.
    RunTool { args: Vec<String> },
    /// Check the device's mount state.
    Observe,
    /// Pause.
    Sleep { ms: u64 },
    /// Run this program with these arguments.
    RunCommand { program: String, args: Vec<String> },
    /// Check whether this directory exists.
    CheckPath { path: String },
    /// Start the file opener on this path, without waiting for it.
    OpenPath { path: String },
    /// Run a reconciliation cycle now.
    Refresh,
    /// The operation is over with this outcome.
    Finish(Result<String, CoreError>),
}

pub open spec fn mount_args(dev: Seq<char>) -> Seq<Seq<char>> {
    seq!["--device"@, dev, "--mount"@]
}

pub open spec fn is_done(t: MountTask) -> bool {
    t.phase is Done
}

/// One step of the state machine: from `t`, on event `e` at time `now`, the
/// task becomes `t2` and asks for `a`.
pub open spec fn transition(
    t: MountTask,
    e: MountEvent,
    now: u64,
    t2: MountTask,
    a: MountAction,
) -> bool {
    let dev = t.device@;
    &&& t2.device == t.device
    &&& t2.goal == t.goal
    &&& match (t.phase, e) {
        (MountPhase::MountCommand, MountEvent::ToolFinished(Ok(_))) => t2.phase
            == MountPhase::AwaitMounted { deadline: deadline_after(now) } && a is Observe,
        (MountPhase::MountCommand, MountEvent::ToolFinished(Err(err))) => is_done(t2) && a
            == MountAction::Finish(Err(err)),
        (MountPhase::AwaitMounted { deadline }, MountEvent::Observed(o)) => match wait_verdict(
            deadline,
            now,
            o.mounted && o.mount_point is Some,
        ) {
            WaitVerdict::TimedOut => is_done(t2) && a == MountAction::Finish(
                Err(CoreError::MountTimeout { device: t.device }),
            ),
            WaitVerdict::Pending => t2.phase == t.phase && a == MountAction::Sleep {
                ms: POLL_INTERVAL_MS,
            },
            WaitVerdict::Converged => {
                let p = o.mount_point->0;
                if p@.len() == 0 {
                    is_done(t2) && a == MountAction::Finish(
                        Err(CoreError::EmptyMountPoint { device: t.device }),
                    )
                } else if t.goal is Mount {
                    is_done(t2) && (a matches MountAction::Finish(Ok(m)) && m@ == "Mounted "@
                        + dev + " at "@ + p@)
                } else {
                    (t2.phase matches MountPhase::CheckStorage { target } && target@
                        == storage_path(p@) && (a matches MountAction::CheckPath { path }
                        && path == target))
                }
            },
        },
        (MountPhase::AwaitMounted { deadline }, MountEvent::Slept) => if now >= deadline {
            is_done(t2) && a == MountAction::Finish(
                Err(CoreError::MountTimeout { device: t.device }),
            )
        } else {
            t2.phase == t.phase && a is Observe
        },
        (MountPhase::CheckStorage { target }, MountEvent::StorageChecked(present)) => if present {
            t2.phase == MountPhase::Opening { target } && a == MountAction::OpenPath {
                path: target,
            }
        } else {
            is_done(t2) && a == MountAction::Finish(
                Err(CoreError::StorageMissing { path: target }),
            )
        },
        (MountPhase::Opening { target }, MountEvent::OpenerSpawned(started)) => if !started {
            is_done(t2) && (a matches MountAction::Finish(Err(CoreError::Unavailable { message }))
                && message@ == "failed to spawn xdg-open"@)
        } else if t.goal is Toggle {
            (t2.phase matches MountPhase::Refreshing { outcome: Ok(m) } && m@
                == "Mounted and opened "@ + dev + ": "@ + target@) && a is Refresh
        } else {
            is_done(t2) && (a matches MountAction::Finish(Ok(m)) && m@ == "Opened mount for "@
                + dev + ": "@ + target@)
        },
        (MountPhase::ToggleCheck, MountEvent::Observed(o)) => if o.mounted
            && o.mount_point is Some && o.mount_point->0@.len() > 0 {
            t2.phase == MountPhase::UnmountPrimary { path: o.mount_point->0 }
                && (a matches MountAction::RunCommand { program, args } && program@
                == "fusermount"@ && string_texts(args@) == seq!["-u"@, o.mount_point->0@])
        } else {
            t2.phase is MountCommand && (a matches MountAction::RunTool { args }
                && string_texts(args@) == mount_args(dev))
        },
        (MountPhase::UnmountPrimary { path }, MountEvent::CommandFinished(ok)) => if ok {
            t2.phase == MountPhase::AwaitUnmounted { path, deadline: deadline_after(now) }
                && a is Observe
        } else {
            t2.phase == MountPhase::UnmountSecondary { path: path } && (
            a matches MountAction::RunCommand { program, args } && program@ == "umount"@
                && string_texts(args@) == seq![path@])
        },
        (MountPhase::UnmountSecondary { path }, MountEvent::CommandFinished(ok)) => if ok {
            t2.phase == MountPhase::AwaitUnmounted { path, deadline: deadline_after(now) }
                && a is Observe
        } else {
            is_done(t2) && a == MountAction::Finish(Err(CoreError::UnmountFailed { path }))
        },
        (MountPhase::AwaitUnmounted { path, deadline }, MountEvent::Observed(o)) => match wait_verdict(
            deadline,
            now,
            !o.mounted,
        ) {
            WaitVerdict::TimedOut => is_done(t2) && a == MountAction::Finish(
                Err(CoreError::UnmountTimeout { device: t.device }),
            ),
            WaitVerdict::Pending => t2.phase == t.phase && a == MountAction::Sleep {
                ms: POLL_INTERVAL_MS,
            },
            WaitVerdict::Converged => (t2.phase matches MountPhase::Refreshing { outcome: Ok(m) }
                && m@ == "Unmounted "@ + dev + " from "@ + path@) && a is Refresh,
        },
        (MountPhase::AwaitUnmounted { path, deadline }, MountEvent::Slept) => if now >= deadline {
            is_done(t2) && a == MountAction::Finish(
                Err(CoreError::UnmountTimeout { device: t.device }),
            )
        } else {
            t2.phase == t.phase && a is Observe
        },
        (MountPhase::Refreshing { outcome }, MountEvent::Refreshed) => is_done(t2) && a
            == MountAction::Finish(outcome),
        _ => is_done(t2) && (a matches MountAction::Finish(Err(CoreError::Unavailable { message }))
            && message@ == "unexpected event in mount operation"@),
    }
}

/// Mounting a device that is already mounted returns at once: after the mount
/// command succeeds the operation observes at once, and a first observation
/// that shows the device mounted at a non-empty path ends it with that path,
/// with no pause and no timeout.
pub proof fn lemma_already_mounted_returns_path(
    t: MountTask,
    out: String,
    s: u64,
    t1: MountTask,
    a1: MountAction,
    o: MountObservation,
    s2: u64,
    t2: MountTask,
    a2: MountAction,
)
    requires
        t.goal is Mount,
        t.phase is MountCommand,
        o.mounted,
        o.mount_point is Some,
        o.mount_point->0@.len() > 0,
        transition(t, MountEvent::ToolFinished(Ok(out)), s, t1, a1),
        transition(t1, MountEvent::Observed(o), s2, t2, a2),
    ensures
        a1 is Observe,
        is_done(t2),
        a2 matches MountAction::Finish(Ok(m)) && m@ == "Mounted "@ + t.device@ + " at "@
            + o.mount_point->0@,
{
}

/// A mount wait that never converges ends in a timeout: the deadline is set
/// one timeout after the mount command succeeds; a check after which the wait
/// goes on leaves that deadline unchanged; and any check at or past it ends the operation
/// with a timeout error for the device, whatever it observed.
pub proof fn lemma_mount_wait_deadline(
    t: MountTask,
    out: String,
    s: u64,
    t1: MountTask,
    a1: MountAction,
    e: MountEvent,
    now: u64,
    t2: MountTask,
    a2: MountAction,
)
    requires
        t.phase is MountCommand,
        transition(t, MountEvent::ToolFinished(Ok(out)), s, t1, a1),
        transition(t1, e, now, t2, a2),
        e is Observed || e is Slept,
    ensures
        t1.phase == (MountPhase::AwaitMounted { deadline: deadline_after(s) }),
        t2.phase is AwaitMounted ==> t2.phase == t1.phase,
        now >= deadline_after(s) && !(e matches MountEvent::Observed(o) && o.mounted
            && o.mount_point is Some) ==> is_done(t2) && a2 == MountAction::Finish(
            Err(CoreError::MountTimeout { device: t.device }),
        ),
{
}

/// From any point of a mount wait, a check at or past the deadline that does
/// not see the device mounted ends the operation with a timeout error, and one
/// after which the wait goes on leaves the deadline unchanged.
pub proof fn lemma_mount_wait_step(
    t1: MountTask,
    e: MountEvent,
    now: u64,
    t2: MountTask,
    a2: MountAction,
)
    requires
        t1.phase is AwaitMounted,
        transition(t1, e, now, t2, a2),
        e is Observed || e is Slept,
    ensures
        t2.phase is AwaitMounted ==> t2.phase == t1.phase,
        now >= t1.phase->AwaitMounted_deadline && !(e matches MountEvent::Observed(o)
            && o.mounted && o.mount_point is Some) ==> is_done(t2) && a2 == MountAction::Finish(
            Err(CoreError::MountTimeout { device: t1.device }),
        ),
{
}

/// Toggling a mounted device unmounts it: the observation that shows it
/// mounted at a non-empty path starts the primary unmount tool on that path;
/// once that succeeds and an observation shows the device
/// unmounted, a refresh runs and the operation ends with a message naming the
/// device and the path.
pub proof fn lemma_toggle_unmounts(
    t0: MountTask,
    o1: MountObservation,
    n1: u64,
    t1: MountTask,
    a1: MountAction,
    n2: u64,
    t2: MountTask,
    a2: MountAction,
    o3: MountObservation,
    n3: u64,
    t3: MountTask,
    a3: MountAction,
    n4: u64,
    t4: MountTask,
    a4: MountAction,
)
    requires
        t0.phase is ToggleCheck,
        o1.mounted,
        o1.mount_point is Some,
        o1.mount_point->0@.len() > 0,
        !o3.mounted,
        transition(t0, MountEvent::Observed(o1), n1, t1, a1),
        transition(t1, MountEvent::CommandFinished(true), n2, t2, a2),
        transition(t2, MountEvent::Observed(o3), n3, t3, a3),
        transition(t3, MountEvent::Refreshed, n4, t4, a4),
    ensures
        a1 matches MountAction::RunCommand { program, args } && program@ == "fusermount"@
            && string_texts(args@) == seq!["-u"@, o1.mount_point->0@],
        a2 is Observe,
        a3 is Refresh,
        is_done(t4),
        a4 matches MountAction::Finish(Ok(m)) && m@ == "Unmounted "@ + t0.device@ + " from "@
            + o1.mount_point->0@,
{
}

/// Toggling a device that is not mounted mounts and opens it: the mount
/// command runs, and once the device shows mounted at a non-empty root, its
/// storage directory exists and the opener starts, a refresh
/// runs and the operation ends with a message naming the device and the
/// storage directory below that root.
pub proof fn lemma_toggle_mounts_and_opens(
    t0: MountTask,
    o1: MountObservation,
    n1: u64,
    t1: MountTask,
    a1: MountAction,
    out: String,
    n2: u64,
    t2: MountTask,
    a2: MountAction,
    o3: MountObservation,
    n3: u64,
    t3: MountTask,
    a3: MountAction,
    n4: u64,
    t4: MountTask,
    a4: MountAction,
    n5: u64,
    t5: MountTask,
    a5: MountAction,
    n6: u64,
    t6: MountTask,
    a6: MountAction,
)
    requires
        t0.goal is Toggle,
        t0.phase is ToggleCheck,
        !o1.mounted,
        o3.mounted,
        o3.mount_point is Some,
        o3.mount_point->0@.len() > 0,
        transition(t0, MountEvent::Observed(o1), n1, t1, a1),
        transition(t1, MountEvent::ToolFinished(Ok(out)), n2, t2, a2),
        transition(t2, MountEvent::Observed(o3), n3, t3, a3),
        transition(t3, MountEvent::StorageChecked(true), n4, t4, a4),
        transition(t4, MountEvent::OpenerSpawned(true), n5, t5, a5),
        transition(t5, MountEvent::Refreshed, n6, t6, a6),
    ensures
        a1 matches MountAction::RunTool { args } && string_texts(args@) == mount_args(
            t0.device@,
        ),
        a3 matches MountAction::CheckPath { path } && path@ == storage_path(o3.mount_point->0@),
        a5 is Refresh,
        is_done(t6),
        a6 matches MountAction::Finish(Ok(m)) && m@ == "Mounted and opened "@ + t0.device@ + ": "@
            + storage_path(o3.mount_point->0@),
{
}

/// `tasks` and `actions` are a run of the state machine on `events` reported
/// at `times`: each task steps to the next on its event.
pub open spec fn is_run(
    tasks: Seq<MountTask>,
    events: Seq<MountEvent>,
    times: Seq<u64>,
    actions: Seq<MountAction>,
) -> bool {
    &&& tasks.len() == events.len() + 1
    &&& times.len() == events.len()
    &&& actions.len() == events.len()
    &&& forall|i: int|
        0 <= i < events.len() ==> #[trigger] transition(
            tasks[i],
            events[i],
            times[i],
            tasks[i + 1],
            actions[i],
        )
}

/// Where a toggle stands once it has chosen to unmount `dev` from `p`.
pub open spec fn unmounting(t: MountTask, dev: String, p: String) -> bool {
    &&& t.device == dev
    &&& match t.phase {
        MountPhase::UnmountPrimary { path } => path == p,
        MountPhase::UnmountSecondary { path } => path == p,
        MountPhase::AwaitUnmounted { path, .. } => path == p,
        MountPhase::Refreshing { outcome } => outcome matches Ok(m) && m@ == "Unmounted "@ + dev@
            + " from "@ + p@,
        MountPhase::Done => true,
        _ => false,
    }
}

/// What an unmounting toggle may ask for: an unmount of `p`, never a mount or
/// the opener, and a success that names `dev` and `p`.
pub open spec fn unmount_action(a: MountAction, dev: String, p: String) -> bool {
    match a {
        MountAction::RunTool { .. } => false,
        MountAction::CheckPath { .. } => false,
        MountAction::OpenPath { .. } => false,
        MountAction::RunCommand { program, args } => (program@ == "fusermount"@ && string_texts(
            args@,
        ) == seq!["-u"@, p@]) || (program@ == "umount"@ && string_texts(args@) == seq![p@]),
        MountAction::Finish(Ok(m)) => m@ == "Unmounted "@ + dev@ + " from "@ + p@,
        _ => true,
    }
}

proof fn lemma_unmounting_step(
    t: MountTask,
    e: MountEvent,
    now: u64,
    t2: MountTask,
    a: MountAction,
    dev: String,
    p: String,
)
    requires
        unmounting(t, dev, p),
        transition(t, e, now, t2, a),
    ensures
        unmounting(t2, dev, p),
        unmount_action(a, dev, p),
{
}

/// Toggling a mounted device, over any run: once the first observation shows
/// it mounted at a non-empty path `p`, every action of the run is an unmount
/// of `p` (the primary tool, then the fallback), a check, a pause, a refresh
/// or an end; no mount command and no opener ever runs; and a successful end
/// names the device and `p`.
pub proof fn lemma_toggle_unmount_run(
    tasks: Seq<MountTask>,
    events: Seq<MountEvent>,
    times: Seq<u64>,
    actions: Seq<MountAction>,
)
    requires
        is_run(tasks, events, times, actions),
        events.len() >= 1,
        tasks[0].phase is ToggleCheck,
        events[0] matches MountEvent::Observed(o) && o.mounted && o.mount_point is Some
            && o.mount_point->0@.len() > 0,
    ensures
        forall|i: int|
            0 <= i < actions.len() ==> unmount_action(
                #[trigger] actions[i],
                tasks[0].device,
                events[0]->Observed_0.mount_point->0,
            ),
{
    let dev = tasks[0].device;
    let p = events[0]->Observed_0.mount_point->0;
    let z: int = 0;
    assert(transition(tasks[z], events[z], times[z], tasks[z + 1], actions[z]));
    assert forall|i: int| 1 <= i <= events.len() implies #[trigger] unmounting(tasks[i], dev, p) by {
        lemma_unmounting_prefix(tasks, events, times, actions, dev, p, i);
    }
    assert forall|i: int| 0 <= i < actions.len() implies unmount_action(
        #[trigger] actions[i],
        dev,
        p,
    ) by {
        assert(transition(tasks[i], events[i], times[i], tasks[i + 1], actions[i]));
        if i > 0 {
            assert(unmounting(tasks[i], dev, p));
            lemma_unmounting_step(tasks[i], events[i], times[i], tasks[i + 1], actions[i], dev, p);
        }
    }
}

proof fn lemma_unmounting_prefix(
    tasks: Seq<MountTask>,
    events: Seq<MountEvent>,
    times: Seq<u64>,
    actions: Seq<MountAction>,
    dev: String,
    p: String,
    i: int,
)
    requires
        is_run(tasks, events, times, actions),
        1 <= i <= events.len(),
        unmounting(tasks[1], dev, p),
    ensures
        unmounting(tasks[i], dev, p),
    decreases i,
{
    if i > 1 {
        lemma_unmounting_prefix(tasks, events, times, actions, dev, p, i - 1);
        let j = i - 1;
        assert(transition(tasks[j], events[j], times[j], tasks[j + 1], actions[j]));
        lemma_unmounting_step(
            tasks[i - 1],
            events[i - 1],
            times[i - 1],
            tasks[i],
            actions[i - 1],
            dev,
            p,
        );
    }
}

/// A storage directory below some non-empty mount root.
pub open spec fn storage_below_root(target: Seq<char>) -> bool {
    exists|r: Seq<char>| r.len() > 0 && target == #[trigger] storage_path(r)
}

/// Where a toggle of `dev` stands once it has chosen to mount and open.
pub open spec fn mounting_to_open(t: MountTask, dev: String) -> bool {
    &&& t.device == dev
    &&& t.goal is Toggle
    &&& match t.phase {
        MountPhase::MountCommand => true,
        MountPhase::AwaitMounted { .. } => true,
        MountPhase::CheckStorage { target } => storage_below_root(target@),
        MountPhase::Opening { target } => storage_below_root(target@),
        MountPhase::Refreshing { outcome } => outcome matches Ok(m) && exists|target: Seq<char>|
            #[trigger] storage_below_root(target) && m@ == "Mounted and opened "@ + dev@ + ": "@
                + target,
        MountPhase::Done => true,
        _ => false,
    }
}

/// What a mounting toggle may ask for: the mount command, never an unmount,
/// and a success that names `dev` and a storage directory below a mount root.
pub open spec fn open_action(a: MountAction, dev: String) -> bool {
    match a {
        MountAction::RunCommand { .. } => false,
        MountAction::RunTool { args } => string_texts(args@) == mount_args(dev@),
        MountAction::CheckPath { path } => storage_below_root(path@),
        MountAction::OpenPath { path } => storage_below_root(path@),
        MountAction::Finish(Ok(m)) => exists|target: Seq<char>|
            #[trigger] storage_below_root(target) && m@ == "Mounted and opened "@ + dev@ + ": "@
                + target,
        _ => true,
    }
}

proof fn lemma_opening_step(
    t: MountTask,
    e: MountEvent,
    now: u64,
    t2: MountTask,
    a: MountAction,
    dev: String,
)
    requires
        mounting_to_open(t, dev),
        transition(t, e, now, t2, a),
    ensures
        mounting_to_open(t2, dev),
        open_action(a, dev),
{
    match (t.phase, e) {
        (MountPhase::AwaitMounted { deadline }, MountEvent::Observed(o)) => {
            if o.mounted && o.mount_point is Some && o.mount_point->0@.len() > 0 {
                let r = o.mount_point->0@;
                assert(storage_path(r).len() > 0);
                assert(storage_below_root(storage_path(r)));
            }
        },
        (MountPhase::Opening { target }, MountEvent::OpenerSpawned(true)) => {
            assert(storage_below_root(target@));
        },
        (MountPhase::Refreshing { outcome }, MountEvent::Refreshed) => {
            let m = outcome->Ok_0;
            assert(a == MountAction::Finish(outcome));
        },
        _ => {},
    }
}

proof fn lemma_opening_prefix(
    tasks: Seq<MountTask>,
    events: Seq<MountEvent>,
    times: Seq<u64>,
    actions: Seq<MountAction>,
    dev: String,
    i: int,
)
    requires
        is_run(tasks, events, times, actions),
        1 <= i <= events.len(),
        mounting_to_open(tasks[1], dev),
    ensures
        mounting_to_open(tasks[i], dev),
    decreases i,
{
    if i > 1 {
        lemma_opening_prefix(tasks, events, times, actions, dev, i - 1);
        let j = i - 1;
        assert(transition(tasks[j], events[j], times[j], tasks[j + 1], actions[j]));
        lemma_opening_step(tasks[i - 1], events[i - 1], times[i - 1], tasks[i], actions[i - 1], dev);
    }
}

/// Toggling a device that is not mounted, over any run: once the first
/// observation does not show it mounted at a non-empty path, the run starts
/// the mount command, never runs an unmount, checks and opens only a storage
/// directory below a non-empty mount root, and a successful end names the
/// device and such a directory.
pub proof fn lemma_toggle_open_run(
    tasks: Seq<MountTask>,
    events: Seq<MountEvent>,
    times: Seq<u64>,
    actions: Seq<MountAction>,
)
    requires
        is_run(tasks, events, times, actions),
        events.len() >= 1,
        tasks[0].goal is Toggle,
        tasks[0].phase is ToggleCheck,
        events[0] matches MountEvent::Observed(o) && !(o.mounted && o.mount_point is Some
            && o.mount_point->0@.len() > 0),
    ensures
        forall|i: int| 0 <= i < actions.len() ==> open_action(#[trigger] actions[i], tasks[0].device),
{
    let dev = tasks[0].device;
    let z: int = 0;
    assert(transition(tasks[z], events[z], times[z], tasks[z + 1], actions[z]));
    assert forall|i: int| 1 <= i <= events.len() implies #[trigger] mounting_to_open(tasks[i], dev) by {
        lemma_opening_prefix(tasks, events, times, actions, dev, i);
    }
    assert forall|i: int| 0 <= i < actions.len() implies open_action(#[trigger] actions[i], dev) by {
        assert(transition(tasks[i], events[i], times[i], tasks[i + 1], actions[i]));
        if i > 0 {
            assert(mounting_to_open(tasks[i], dev));
            lemma_opening_step(tasks[i], events[i], times[i], tasks[i + 1], actions[i], dev);
        }
    }
}

fn mount_tool_args(dev: &String) -> (r: Vec<String>)
    ensures
        string_texts(r@) == mount_args(dev@),
{
    let mut r: Vec<String> = Vec::new();
    r.push("--device".to_owned());
    r.push(dev.clone());
    r.push("--mount".to_owned());
    assert(string_texts(r@) == mount_args(dev@));
    r
}

fn deadline_from(now: u64) -> (r: u64)
    ensures
        r == deadline_after(now),
{
    if now > u64::MAX - CONVERGENCE_TIMEOUT_MS {
        u64::MAX
    } else {
        now + CONVERGENCE_TIMEOUT_MS
    }
}

fn finish_done(device: String, goal: MountGoal, outcome: Result<String, CoreError>) -> (r: (
    MountTask,
    MountAction,
))
    ensures
        r.0.device == device,
        r.0.goal == goal,
        is_done(r.0),
        r.1 == MountAction::Finish(outcome),
{
    (MountTask { device, goal, phase: MountPhase::Done }, MountAction::Finish(outcome))
}

impl MountTask {
    /// Starts an operation on `device`, with its first action: the mount
    /// command, or for a toggle an observation of the current state.
    pub fn start(device: String, goal: MountGoal) -> (r: (MountTask, MountAction))
        ensures
            r.0.device == device,
            r.0.goal == goal,
            if goal is Toggle {
                r.0.phase is ToggleCheck && r.1 is Observe
            } else {
                r.0.phase is MountCommand && (r.1 matches MountAction::RunTool { args }
                    && string_texts(args@) == mount_args(device@))
            },
    {
        match goal {
            MountGoal::Toggle => (
                MountTask { device, goal, phase: MountPhase::ToggleCheck },
                MountAction::Observe,
            ),
            _ => {
                let args = mount_tool_args(&device);
                (MountTask { device, goal, phase: MountPhase::MountCommand }, MountAction::RunTool { args })
            },
        }
    }

    /// Advances the operation on `event`, reported at `now_ms` of a monotonic
    /// clock.
    pub fn step(self, event: MountEvent, now_ms: u64) -> (r: (MountTask, MountAction))
        ensures
            transition(self, event, now_ms, r.0, r.1),
    {
        let device = self.device;
        let goal = self.goal;
        match (self.phase, event) {
            (MountPhase::MountCommand, MountEvent::ToolFinished(Ok(_))) => (
                MountTask {
                    device,
                    goal,
                    phase: MountPhase::AwaitMounted { deadline: deadline_from(now_ms) },
                },
                MountAction::Observe,
            ),
            (MountPhase::MountCommand, MountEvent::ToolFinished(Err(err))) => finish_done(
                device,
                goal,
                Err(err),
            ),
            (MountPhase::AwaitMounted { deadline }, MountEvent::Observed(o)) => {
                let converged = o.mounted && o.mount_point.is_some();
                match judge_wait(deadline, now_ms, converged) {
                    WaitVerdict::TimedOut => {
                        let err = CoreError::MountTimeout { device: device.clone() };
                        finish_done(device, goal, Err(err))
                    },
                    WaitVerdict::Pending => (
                        MountTask { device, goal, phase: MountPhase::AwaitMounted { deadline } },
                        MountAction::Sleep { ms: POLL_INTERVAL_MS },
                    ),
                    WaitVerdict::Converged => {
                        let p = match o.mount_point {
                            Some(p) => p,
                            None => String::new(),
                        };
                        if p.as_str().is_empty() {
                            let err = CoreError::EmptyMountPoint { device: device.clone() };
                            finish_done(device, goal, Err(err))
                        } else {
                            match goal {
                                MountGoal::Mount => {
                                    let mut m = join3("Mounted ", device.as_str(), " at ");
                                    m.append(p.as_str());
                                    finish_done(device, goal, Ok(m))
                                },
                                _ => {
                                    let target = internal_storage_path(p.as_str());
                                    let path = target.clone();
                                    (
                                        MountTask {
                                            device,
                                            goal,
                                            phase: MountPhase::CheckStorage { target },
                                        },
                                        MountAction::CheckPath { path },
                                    )
                                },
                            }
                        }
                    },
                }
            },
            (MountPhase::AwaitMounted { deadline }, MountEvent::Slept) => {
                if now_ms >= deadline {
                    let err = CoreError::MountTimeout { device: device.clone() };
                    finish_done(device, goal, Err(err))
                } else {
                    (
                        MountTask { device, goal, phase: MountPhase::AwaitMounted { deadline } },
                        MountAction::Observe,
                    )
                }
            },
            (MountPhase::CheckStorage { target }, MountEvent::StorageChecked(present)) => {
                if present {
                    let path = target.clone();
                    (
                        MountTask { device, goal, phase: MountPhase::Opening { target } },
                        MountAction::OpenPath { path },
                    )
                } else {
                    finish_done(device, goal, Err(CoreError::StorageMissing { path: target }))
                }
            },
            (MountPhase::Opening { target }, MountEvent::OpenerSpawned(started)) => {
                if !started {
                    let message = "failed to spawn xdg-open".to_owned();
                    finish_done(device, goal, Err(CoreError::Unavailable { message }))
                } else {
                    match goal {
                        MountGoal::Toggle => {
                            let mut m = join3("Mounted and opened ", device.as_str(), ": ");
                            m.append(target.as_str());
                            (
                                MountTask {
                                    device,
                                    goal,
                                    phase: MountPhase::Refreshing { outcome: Ok(m) },
                                },
                                MountAction::Refresh,
                            )
                        },
                        _ => {
                            let mut m = join3("Opened mount for ", device.as_str(), ": ");
                            m.append(target.as_str());
                            finish_done(device, goal, Ok(m))
                        },
                    }
                }
            },
            (MountPhase::ToggleCheck, MountEvent::Observed(o)) => {
                let mounted = o.mounted;
                match o.mount_point {
                    Some(p) => {
                        if mounted && !p.as_str().is_empty() {
                            let mut args: Vec<String> = Vec::new();
                            args.push("-u".to_owned());
                            args.push(p.clone());
                            assert(string_texts(args@) == seq!["-u"@, p@]);
                            (
                                MountTask {
                                    device,
                                    goal,
                                    phase: MountPhase::UnmountPrimary { path: p },
                                },
                                MountAction::RunCommand { program: "fusermount".to_owned(), args },
                            )
                        } else {
                            let args = mount_tool_args(&device);
                            (
                                MountTask { device, goal, phase: MountPhase::MountCommand },
                                MountAction::RunTool { args },
                            )
                        }
                    },
                    None => {
                        let args = mount_tool_args(&device);
                        (
                            MountTask { device, goal, phase: MountPhase::MountCommand },
                            MountAction::RunTool { args },
                        )
                    },
                }
            },
            (MountPhase::UnmountPrimary { path }, MountEvent::CommandFinished(ok)) => {
                if ok {
                    (
                        MountTask {
                            device,
                            goal,
                            phase: MountPhase::AwaitUnmounted {
                                path,
                                deadline: deadline_from(now_ms),
                            },
                        },
                        MountAction::Observe,
                    )
                } else {
                    let mut args: Vec<String> = Vec::new();
                    args.push(path.clone());
                    assert(string_texts(args@) == seq![path@]);
                    (
                        MountTask { device, goal, phase: MountPhase::UnmountSecondary { path } },
                        MountAction::RunCommand { program: "umount".to_owned(), args },
                    )
                }
            },
            (MountPhase::UnmountSecondary { path }, MountEvent::CommandFinished(ok)) => {
                if ok {
                    (
                        MountTask {
                            device,
                            goal,
                            phase: MountPhase::AwaitUnmounted {
                                path,
                                deadline: deadline_from(now_ms),
                            },
                        },
                        MountAction::Observe,
                    )
                } else {
                    finish_done(device, goal, Err(CoreError::UnmountFailed { path }))
                }
            },
            (MountPhase::AwaitUnmounted { path, deadline }, MountEvent::Observed(o)) => {
                match judge_wait(deadline, now_ms, !o.mounted) {
                    WaitVerdict::TimedOut => {
                        let err = CoreError::UnmountTimeout { device: device.clone() };
                        finish_done(device, goal, Err(err))
                    },
                    WaitVerdict::Pending => (
                        MountTask {
                            device,
                            goal,
                            phase: MountPhase::AwaitUnmounted { path, deadline },
                        },
                        MountAction::Sleep { ms: POLL_INTERVAL_MS },
                    ),
                    WaitVerdict::Converged => {
                        let mut m = join3("Unmounted ", device.as_str(), " from ");
                        m.append(path.as_str());
                        (
                            MountTask {
                                device,
                                goal,
                                phase: MountPhase::Refreshing { outcome: Ok(m) },
                            },
                            MountAction::Refresh,
                        )
                    },
                }
            },
            (MountPhase::AwaitUnmounted { path, deadline }, MountEvent::Slept) => {
                if now_ms >= deadline {
                    let err = CoreError::UnmountTimeout { device: device.clone() };
                    finish_done(device, goal, Err(err))
                } else {
                    (
                        MountTask {
                            device,
                            goal,
                            phase: MountPhase::AwaitUnmounted { path, deadline },
                        },
                        MountAction::Observe,
                    )
                }
            },
            (MountPhase::Refreshing { outcome }, MountEvent::Refreshed) => finish_done(
                device,
                goal,
                outcome,
            ),
            _ => {
                let message = "unexpected event in mount operation".to_owned();
                finish_done(device, goal, Err(CoreError::Unavailable { message }))
            },
        }
    }
}

} // verus!
