//! Failures of control operations, and their descriptions.
use vstd::prelude::*;
use crate::text::{decimal, decimal_text};

verus! {

/// The family a failure belongs to.
#[derive(Debug, Clone, Copy, PartialEq, Eq)]
pub enum ErrorKind {
    /// The backing tool or bus is missing or unreachable.
    Unavailable,
    /// The target or the request is not acceptable.
    Invalid,
    /// A convergence wait passed its deadline.
    Timeout,
    /// An outside command or bus call failed; its own text is kept.
    Upstream,
}

/// Why a control operation failed.
#[derive(Debug, Clone, PartialEq, Eq)]
pub enum CoreError {
    NotActionable { device: String },
    NoActionableDevice,
    EmptyShare,
    MountTimeout { device: String },
    UnmountTimeout { device: String },
    EmptyMountPoint { device: String },
    StorageMissing { path: String },
    UnmountFailed { path: String },
    Upstream { message: String },
    Unavailable { message: String },
    VolumeOutOfRange { value: u8 },
    MalformedRequest { detail: String },
}

/// `a + b + c` as one string.
pub fn join3(a: &str, b: &str, c: &str) -> (r: String)
    ensures
        r@ == a@ + b@ + c@,
{
    let mut r = a.to_owned();
    r.append(b);
    r.append(c);
    r
}

/// `a + b` as one string.
pub fn join2(a: &str, b: &str) -> (r: String)
    ensures
        r@ == a@ + b@,
{
    let mut r = a.to_owned();
    r.append(b);
    r
}

pub open spec fn error_kind(e: CoreError) -> ErrorKind {
    match e {
        CoreError::NotActionable { .. } => ErrorKind::Invalid,
        CoreError::NoActionableDevice => ErrorKind::Invalid,
        CoreError::EmptyShare => ErrorKind::Invalid,
        CoreError::MountTimeout { .. } => ErrorKind::Timeout,
        CoreError::UnmountTimeout { .. } => ErrorKind::Timeout,
        CoreError::EmptyMountPoint { .. } => ErrorKind::Upstream,
        CoreError::StorageMissing { .. } => ErrorKind::Invalid,
        CoreError::UnmountFailed { .. } => ErrorKind::Upstream,
        CoreError::Upstream { .. } => ErrorKind::Upstream,
        CoreError::Unavailable { .. } => ErrorKind::Unavailable,
        CoreError::VolumeOutOfRange { .. } => ErrorKind::Invalid,
        CoreError::MalformedRequest { .. } => ErrorKind::Invalid,
    }
}

/// The human-readable description of a failure.
pub open spec fn error_text(e: CoreError) -> Seq<char> {
    match e {
        CoreError::NotActionable { device } => "device '"@ + device@
            + "' is not both paired and reachable"@,
        CoreError::NoActionableDevice => "no paired and reachable KDE Connect device found"@,
        CoreError::EmptyShare => "clipboard is empty"@,
        CoreError::MountTimeout { device } => "timed out waiting for mount point for device "@
            + device@,
        CoreError::UnmountTimeout { device } =>
            "timed out waiting for mount state 'false' on device "@ + device@,
        CoreError::EmptyMountPoint { device } => "mount point is empty for device "@ + device@,
        CoreError::StorageMissing { path } => "internal storage path not found: "@ + path@,
        CoreError::UnmountFailed { path } => "failed to unmount "@ + path@
            + " with fusermount/umount"@,
        CoreError::Upstream { message } => message@,
        CoreError::Unavailable { message } => message@,
        CoreError::VolumeOutOfRange { value } => "volume must be between 0 and 100, not "@
            + decimal(value as nat),
        CoreError::MalformedRequest { detail } => "invalid IPC request JSON: "@ + detail@,
    }
}

impl CoreError {
    pub fn kind(&self) -> (r: ErrorKind)
        ensures
            r == error_kind(*self),
    {
        match self {
            CoreError::NotActionable { .. } => ErrorKind::Invalid,
            CoreError::NoActionableDevice => ErrorKind::Invalid,
            CoreError::EmptyShare => ErrorKind::Invalid,
            CoreError::MountTimeout { .. } => ErrorKind::Timeout,
            CoreError::UnmountTimeout { .. } => ErrorKind::Timeout,
            CoreError::EmptyMountPoint { .. } => ErrorKind::Upstream,
            CoreError::StorageMissing { .. } => ErrorKind::Invalid,
            CoreError::UnmountFailed { .. } => ErrorKind::Upstream,
            CoreError::Upstream { .. } => ErrorKind::Upstream,
            CoreError::Unavailable { .. } => ErrorKind::Unavailable,
            CoreError::VolumeOutOfRange { .. } => ErrorKind::Invalid,
            CoreError::MalformedRequest { .. } => ErrorKind::Invalid,
        }
    }

    /// The description shown to the requester.
    pub fn message(&self) -> (r: String)
        ensures
            r@ == error_text(*self),
    {
        match self {
            CoreError::NotActionable { device } => join3(
                "device '",
                device.as_str(),
                "' is not both paired and reachable",
            ),
            CoreError::NoActionableDevice => "no paired and reachable KDE Connect device found".to_owned(),
            CoreError::EmptyShare => "clipboard is empty".to_owned(),
            CoreError::MountTimeout { device } => join2(
                "timed out waiting for mount point for device ",
                device.as_str(),
            ),
            CoreError::UnmountTimeout { device } => join2(
                "timed out waiting for mount state 'false' on device ",
                device.as_str(),
            ),
            CoreError::EmptyMountPoint { device } => join2(
                "mount point is empty for device ",
                device.as_str(),
            ),
            CoreError::StorageMissing { path } => join2(
                "internal storage path not found: ",
                path.as_str(),
            ),
            CoreError::UnmountFailed { path } => join3(
                "failed to unmount ",
                path.as_str(),
                " with fusermount/umount",
            ),
            CoreError::Upstream { message } => message.clone(),
            CoreError::Unavailable { message } => message.clone(),
            CoreError::VolumeOutOfRange { value } => join2(
                "volume must be between 0 and 100, not ",
                decimal_text(*value as u64).as_str(),
            ),
            CoreError::MalformedRequest { detail } => join2(
                "invalid IPC request JSON: ",
                detail.as_str(),
            ),
        }
    }
}

} // verus!
