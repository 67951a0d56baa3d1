//! What the controller reports when something goes wrong.

use crate::rollback::RollbackFailures;
use crate::service::command::ServiceCommand;
use crate::text::{decimal, decimal_text, signed_decimal, signed_decimal_text};
use vstd::prelude::*;
use vstd::string::*;

verus! {

/// An error that came from outside: its outermost message, and the message
/// with everything that led to it.
#[derive(Debug)]
pub struct Failure {
    pub summary: String,
    pub detail: String,
}

/// A fixed message.
#[derive(Debug, Clone, Copy, PartialEq, Eq, Structural)]
pub enum Note {
    NoActiveIcsTransaction,
    ForeignIcsToken,
    IcsCasUnreachable,
    IcsCasNoSnapshot,
    IcsSnapshotUnreachable,
    IcsSnapshotMissing,
    IcsAdapterMissing,
    IcsListUnreachable,
    IcsRepairUnreachable,
    IcsRepairMissing,
    IcsUnsupported,
    IcsSyncTimedOut,
    ServiceUnreachable,
    StatusUnreachable,
    StatusMissing,
    EndpointAbsent,
    VersionUnreachable,
    VersionMissing,
    OperationRunning,
    IpcPathNotReady,
    ScmOpen,
    ScmServiceOpen,
    ScmQuery,
    ScmUndetermined,
    MaintenanceTimedOut,
    RegenerateIntent,
    SidecarWithoutOwner,
    AcquireLease,
    RecheckLease,
    UnsafeSidecar,
    LeaseRetained,
    StateChanged,
    RestoreRunFile,
    SidecarExitedEarly,
    ServiceStartFailed,
    CreateJobObject,
    SetInformationJobObject,
    OpenProcess,
    AssignProcessToJobObject,
    WaitForSidecar,
    Exiting,
    ProfileUrlMissing,
    CommitGuardMissing,
}

/// A message of the controller's own.
#[derive(Debug)]
pub enum Message {
    Note(Note),
    /// What the service said of its refusal.
    Reply { text: String },
    /// The recovery target has been changed by another client.
    IcsConflict { original: u64, current: u64 },
    /// Restoring the recovery target failed.
    IcsRestoreFrom { generation: u64 },
    /// The service refused a compare-and-swap.
    IcsCasRejected { text: String, expected: u64, current: Option<u64> },
    /// The service applied something else than what was sent.
    IcsCasUnexpected { expected: u64, applied: u64 },
    /// The service speaks another protocol version.
    VersionMismatch { version: String, bundled: String },
    /// The installer is missing; `path` is its quoted path.
    InstallerNotFound { path: String },
    /// The uninstaller is missing; `path` is its quoted path.
    UninstallerNotFound { path: String },
    /// The uninstaller failed.
    UninstallFailed { code: i32 },
    /// The installer failed.
    InstallFailed { code: i32, details: String },
    /// The install half of a reinstallation failed.
    ReinstallFailed { reason: Box<CoreError> },
    /// A service command failed.
    CommandFailed { command: ServiceCommand },
    /// The task that ran a service command failed.
    CommandTaskFailed { command: ServiceCommand },
    /// The service is not available.
    ServiceUnavailable { reason: String },
    /// The only core path is a temporary one; `candidate` is that path, quoted.
    TranslocatedCore { candidate: String },
    /// Undoing a half-made start failed.
    ExitRollback { rollback: Failure },
    /// Undoing the TUN fallback failed.
    TunFallbackRollback { rollback: Failure },
    /// There is no core of that name.
    InvalidCore { core: String },
    /// The child could not be made to inherit the core lease.
    InheritanceFailed { reason: Failure },
    /// Neither the job object nor the kill worked.
    JobUnterminated { pid: u32, job: Box<CoreError>, kill: Failure },
    /// The sidecar could not be given the core lease.
    SidecarStartFailed { generation: u64, pid: u32, attach: Failure, kill: Option<Failure> },
    /// The job object could not be kept, nor the child killed.
    JobUnretained { generation: u64, pid: u32, reason: Box<CoreError>, kill: Failure },
    /// The core lease could not be kept, nor the child killed.
    OwnerUnretained { generation: u64, pid: u32, reason: Box<CoreError>, kill: Failure },
    /// The child could not be recorded, nor killed.
    ChildUncommitted { generation: u64, pid: u32, reason: Box<CoreError>, kill: Failure },
    /// Another generation holds the job object.
    JobHeld { generation: u64 },
    /// Another generation holds the core lease.
    OwnerHeld { generation: u64, pid: u32 },
    /// Another child is recorded.
    ChildStored { generation: u64, pid: u32 },
    /// The sidecar did not give the core lease back in time.
    OwnerWaitTimedOut { generation: u64, pid: u32 },
    /// The sidecar was neither killed nor seen to exit.
    SidecarUnterminated { generation: u64, pid: u32, kill: Failure, wait: Box<CoreError> },
    /// Undoing the recovery target after a failed start failed.
    IcsRestoreAfterRetries { reason: Box<CoreError> },
    /// Waiting for the sidecar ended in an unknown way.
    WaitStatus { status: u32 },
    /// Neither a reload nor a restart took the configuration.
    ApplyFailed { reason: Box<CoreError> },
    /// A validation came to something else than success; `text` says what.
    Outcome { text: String },
    /// Steps of a rollback that failed.
    RollbackErrors { failures: RollbackFailures },
}

/// An error: one from outside, or a message of the controller's own, by itself
/// or as the context of another error.
#[derive(Debug)]
pub enum CoreError {
    Outside(Failure),
    Plain(Message),
    Context(Message, Box<CoreError>),
}

impl Note {
    /// The wording of the message.
    pub open spec fn wording(self) -> Seq<char> {
        match self {
            Note::NoActiveIcsTransaction => "Windows ICS mutation requires an active CoreManager config transaction"@,
            Note::ForeignIcsToken => "refusing to use a Windows ICS rollback token outside its originating config transaction"@,
            Note::IcsCasUnreachable => "unable to configure persistent Windows ICS recovery"@,
            Note::IcsCasNoSnapshot => "Windows ICS recovery CAS returned no applied snapshot"@,
            Note::IcsSnapshotUnreachable => "unable to snapshot persistent Windows ICS recovery"@,
            Note::IcsSnapshotMissing => "Windows ICS recovery snapshot returned no data"@,
            Note::IcsAdapterMissing => "Windows ICS private adapter is not configured"@,
            Note::IcsListUnreachable => "unable to list Windows ICS connections"@,
            Note::IcsRepairUnreachable => "unable to repair Windows ICS"@,
            Note::IcsRepairMissing => "Windows ICS repair returned no result"@,
            Note::IcsUnsupported => "Windows ICS is only available on Windows"@,
            Note::IcsSyncTimedOut => "persistent Windows ICS configuration sync timed out"@,
            Note::ServiceUnreachable => "无法连接到Clash Verge Service"@,
            Note::StatusUnreachable => "unable to query Clash Verge Service status"@,
            Note::StatusMissing => "service status response has no data"@,
            Note::EndpointAbsent => "Clash Verge Service IPC endpoint is not present"@,
            Note::VersionUnreachable => "unable to query Clash Verge Service version"@,
            Note::VersionMissing => "service version response has no data"@,
            Note::OperationRunning => "service operation already running"@,
            Note::IpcPathNotReady => "IPC path not ready"@,
            Note::ScmOpen => "unable to open Windows Service Control Manager"@,
            Note::ScmServiceOpen => "unable to open clash_verge_service for status query"@,
            Note::ScmQuery => "unable to query clash_verge_service status"@,
            Note::ScmUndetermined => "unable to determine installed service state"@,
            Note::MaintenanceTimedOut => "service did not become reachable in the startup maintenance window"@,
            Note::RegenerateIntent => "failed to regenerate user intent before service startup"@,
            Note::SidecarWithoutOwner => "sidecar startup selected without an acquired core owner"@,
            Note::AcquireLease => "failed to acquire the core startup lease"@,
            Note::RecheckLease => "failed to recheck the contended core startup lease"@,
            Note::UnsafeSidecar => "refusing sidecar startup while a legacy/unverified service or unmanaged Mihomo core may still be active"@,
            Note::LeaseRetained => "another process retained core ownership but no service control endpoint was confirmed"@,
            Note::StateChanged => "service/core state changed after lease acquisition; refusing unsafe sidecar startup"@,
            Note::RestoreRunFile => "failed to restore the durable Run file after an early sidecar exit"@,
            Note::SidecarExitedEarly => "sidecar exited before the session-only TUN fallback could be committed"@,
            Note::ServiceStartFailed => "service start failed"@,
            Note::CreateJobObject => "CreateJobObjectW failed"@,
            Note::SetInformationJobObject => "SetInformationJobObject failed"@,
            Note::OpenProcess => "OpenProcess failed"@,
            Note::AssignProcessToJobObject => "AssignProcessToJobObject failed"@,
            Note::WaitForSidecar => "WaitForSingleObject failed for sidecar"@,
            Note::Exiting => "application is exiting"@,
            Note::ProfileUrlMissing => "failed to get the profile item url"@,
            Note::CommitGuardMissing => "downloaded profile update has no revision commit guard"@,
        }
    }

    /// The text of the message.
    pub fn text(&self) -> (r: &'static str)
        ensures
            r@ == self.wording(),
    {
        match self {
            Note::NoActiveIcsTransaction => "Windows ICS mutation requires an active CoreManager config transaction",
            Note::ForeignIcsToken => "refusing to use a Windows ICS rollback token outside its originating config transaction",
            Note::IcsCasUnreachable => "unable to configure persistent Windows ICS recovery",
            Note::IcsCasNoSnapshot => "Windows ICS recovery CAS returned no applied snapshot",
            Note::IcsSnapshotUnreachable => "unable to snapshot persistent Windows ICS recovery",
            Note::IcsSnapshotMissing => "Windows ICS recovery snapshot returned no data",
            Note::IcsAdapterMissing => "Windows ICS private adapter is not configured",
            Note::IcsListUnreachable => "unable to list Windows ICS connections",
            Note::IcsRepairUnreachable => "unable to repair Windows ICS",
            Note::IcsRepairMissing => "Windows ICS repair returned no result",
            Note::IcsUnsupported => "Windows ICS is only available on Windows",
            Note::IcsSyncTimedOut => "persistent Windows ICS configuration sync timed out",
            Note::ServiceUnreachable => "无法连接到Clash Verge Service",
            Note::StatusUnreachable => "unable to query Clash Verge Service status",
            Note::StatusMissing => "service status response has no data",
            Note::EndpointAbsent => "Clash Verge Service IPC endpoint is not present",
            Note::VersionUnreachable => "unable to query Clash Verge Service version",
            Note::VersionMissing => "service version response has no data",
            Note::OperationRunning => "service operation already running",
            Note::IpcPathNotReady => "IPC path not ready",
            Note::ScmOpen => "unable to open Windows Service Control Manager",
            Note::ScmServiceOpen => "unable to open clash_verge_service for status query",
            Note::ScmQuery => "unable to query clash_verge_service status",
            Note::ScmUndetermined => "unable to determine installed service state",
            Note::MaintenanceTimedOut => "service did not become reachable in the startup maintenance window",
            Note::RegenerateIntent => "failed to regenerate user intent before service startup",
            Note::SidecarWithoutOwner => "sidecar startup selected without an acquired core owner",
            Note::AcquireLease => "failed to acquire the core startup lease",
            Note::RecheckLease => "failed to recheck the contended core startup lease",
            Note::UnsafeSidecar => "refusing sidecar startup while a legacy/unverified service or unmanaged Mihomo core may still be active",
            Note::LeaseRetained => "another process retained core ownership but no service control endpoint was confirmed",
            Note::StateChanged => "service/core state changed after lease acquisition; refusing unsafe sidecar startup",
            Note::RestoreRunFile => "failed to restore the durable Run file after an early sidecar exit",
            Note::SidecarExitedEarly => "sidecar exited before the session-only TUN fallback could be committed",
            Note::ServiceStartFailed => "service start failed",
            Note::CreateJobObject => "CreateJobObjectW failed",
            Note::SetInformationJobObject => "SetInformationJobObject failed",
            Note::OpenProcess => "OpenProcess failed",
            Note::AssignProcessToJobObject => "AssignProcessToJobObject failed",
            Note::WaitForSidecar => "WaitForSingleObject failed for sidecar",
            Note::Exiting => "application is exiting",
            Note::ProfileUrlMissing => "failed to get the profile item url",
            Note::CommitGuardMissing => "downloaded profile update has no revision commit guard",
        }
    }
}

/// The text of a generation that may be unknown.
pub open spec fn generation_wording(generation: Option<u64>) -> Seq<char> {
    match generation {
        Some(n) => decimal(n as nat),
        None => "unknown"@,
    }
}

fn generation_text(generation: Option<u64>) -> (r: String)
    ensures
        r@ == generation_wording(generation),
{
    match generation {
        Some(n) => decimal_text(n),
        None => "unknown".to_owned(),
    }
}

/// What is added of a child that could not be killed.
pub open spec fn kill_wording(kill: Option<Failure>) -> Seq<char> {
    match kill {
        Some(failure) => "; failed to terminate sidecar: "@ + failure.detail@,
        None => Seq::empty(),
    }
}

fn kill_text(kill: &Option<Failure>) -> (r: String)
    ensures
        r@ == kill_wording(*kill),
{
    match kill {
        Some(failure) => {
            let mut r = "; failed to terminate sidecar: ".to_owned();
            r.append(failure.detail.as_str());
            r
        },
        None => String::new(),
    }
}

impl Message {
    /// The wording of the message.
    pub open spec fn wording(self) -> Seq<char>
        decreases self,
    {
        match self {
            Message::Note(note) => note.wording(),
            Message::Reply { text } => text@,
            Message::IcsConflict { original, current } => "refusing to restore Windows ICS generation "@ + decimal(original as nat) + " over newer unowned generation "@ + decimal(current as nat) + "; another client changed the recovery target"@,
            Message::IcsRestoreFrom { generation } => "unable to restore Windows ICS recovery snapshot from generation "@ + decimal(generation as nat),
            Message::IcsCasRejected { text, expected, current } => text@ + " (expected generation "@ + decimal(expected as nat) + ", current generation "@ + generation_wording(current) + ")"@,
            Message::IcsCasUnexpected { expected, applied } => "Windows ICS recovery CAS returned an unexpected snapshot (expected generation "@ + decimal(expected as nat) + ", applied generation "@ + decimal(applied as nat) + ")"@,
            Message::VersionMismatch { version, bundled } => "Clash Verge Service version "@ + version@ + " is incompatible with bundled protocol "@ + bundled@,
            Message::InstallerNotFound { path } => "installer not found: "@ + path@,
            Message::UninstallerNotFound { path } => "uninstaller not found: "@ + path@,
            Message::UninstallFailed { code } => "failed to uninstall service with status "@ + signed_decimal(code as int),
            Message::InstallFailed { code, details } => "failed to install service code: "@ + signed_decimal(code as int) + ", details: "@ + details@,
            Message::ReinstallFailed { reason } => "failed to install service: "@ + reason.summary_wording(),
            Message::CommandFailed { command } => command.label_wording() + " failed"@,
            Message::CommandTaskFailed { command } => command.label_wording() + " task failed"@,
            Message::ServiceUnavailable { reason } => "服务不可用: "@ + reason@,
            Message::TranslocatedCore { candidate } => "macOS App Translocation detected; refusing to start service with temporary core path "@ + candidate@,
            Message::ExitRollback { rollback } => "application began exiting during sidecar preparation; rollback errors: runtime file rollback failed: "@ + rollback.detail@,
            Message::TunFallbackRollback { rollback } => "failed to roll back the uncommitted TUN sidecar fallback: runtime file rollback failed: "@ + rollback.detail@,
            Message::InvalidCore { core } => "Invalid clash core: "@ + core@,
            Message::InheritanceFailed { reason } => "failed to prepare inherited sidecar core ownership: "@ + reason.detail@,
            Message::JobUnterminated { pid, job, kill } => "failed to configure Job Object for sidecar PID "@ + decimal(pid as nat) + ": "@ + job.detail_wording() + "; failed to terminate child: "@ + kill.detail@,
            Message::SidecarStartFailed { generation, pid, attach, kill } => "failed to start sidecar generation "@ + decimal(generation as nat) + " PID "@ + decimal(pid as nat) + ": failed to attach core ownership to sidecar: "@ + attach.detail@ + kill_wording(kill),
            Message::JobUnretained { generation, pid, reason, kill } => "failed to retain Job Object for sidecar generation "@ + decimal(generation as nat) + " PID "@ + decimal(pid as nat) + ": "@ + reason.detail_wording() + "; failed to terminate child: "@ + kill.detail@,
            Message::OwnerUnretained { generation, pid, reason, kill } => "failed to retain core owner for sidecar generation "@ + decimal(generation as nat) + " PID "@ + decimal(pid as nat) + ": "@ + reason.detail_wording() + "; failed to terminate child: "@ + kill.detail@,
            Message::ChildUncommitted { generation, pid, reason, kill } => "failed to commit sidecar generation "@ + decimal(generation as nat) + " PID "@ + decimal(pid as nat) + ": "@ + reason.detail_wording() + "; failed to terminate child: "@ + kill.detail@,
            Message::JobHeld { generation } => "sidecar Job Object is already held by generation "@ + decimal(generation as nat),
            Message::OwnerHeld { generation, pid } => "sidecar core ownership is already held by generation "@ + decimal(generation as nat) + " PID "@ + decimal(pid as nat),
            Message::ChildStored { generation, pid } => "sidecar child is already stored for generation "@ + decimal(generation as nat) + " PID "@ + decimal(pid as nat),
            Message::OwnerWaitTimedOut { generation, pid } => "timed out waiting for sidecar generation "@ + decimal(generation as nat) + " PID "@ + decimal(pid as nat) + " to release core ownership"@,
            Message::SidecarUnterminated { generation, pid, kill, wait } => "failed to terminate sidecar generation "@ + decimal(generation as nat) + " PID "@ + decimal(pid as nat) + ": "@ + kill.detail@ + "; "@ + wait.detail_wording(),
            Message::IcsRestoreAfterRetries { reason } => "failed to restore persistent Windows ICS config after StartClash retries: "@ + reason.detail_wording(),
            Message::WaitStatus { status } => "unexpected sidecar wait status "@ + decimal(status as nat),
            Message::ApplyFailed { reason } => "Failed to apply config: "@ + reason.summary_wording(),
            Message::Outcome { text } => text@,
            Message::RollbackErrors { failures } => "rollback errors: "@ + failures.wording(),
        }
    }

    /// The text of the message.
    pub fn text(&self) -> (r: String)
        ensures
            r@ == self.wording(),
        decreases self,
    {
        match self {
            Message::Note(note) => note.text().to_owned(),
            Message::Reply { text } => {
                text.as_str().to_owned()
            },
            Message::IcsConflict { original, current } => {
                let mut r = "refusing to restore Windows ICS generation ".to_owned();
                r.append(decimal_text(*original as u64).as_str());
                r.append(" over newer unowned generation ");
                r.append(decimal_text(*current as u64).as_str());
                r.append("; another client changed the recovery target");
                r
            },
            Message::IcsRestoreFrom { generation } => {
                let mut r = "unable to restore Windows ICS recovery snapshot from generation ".to_owned();
                r.append(decimal_text(*generation as u64).as_str());
                r
            },
            Message::IcsCasRejected { text, expected, current } => {
                let mut r = text.as_str().to_owned();
                r.append(" (expected generation ");
                r.append(decimal_text(*expected as u64).as_str());
                r.append(", current generation ");
                r.append(generation_text(*current).as_str());
                r.append(")");
                r
            },
            Message::IcsCasUnexpected { expected, applied } => {
                let mut r = "Windows ICS recovery CAS returned an unexpected snapshot (expected generation ".to_owned();
                r.append(decimal_text(*expected as u64).as_str());
                r.append(", applied generation ");
                r.append(decimal_text(*applied as u64).as_str());
                r.append(")");
                r
            },
            Message::VersionMismatch { version, bundled } => {
                let mut r = "Clash Verge Service version ".to_owned();
                r.append(version.as_str());
                r.append(" is incompatible with bundled protocol ");
                r.append(bundled.as_str());
                r
            },
            Message::InstallerNotFound { path } => {
                let mut r = "installer not found: ".to_owned();
                r.append(path.as_str());
                r
            },
            Message::UninstallerNotFound { path } => {
                let mut r = "uninstaller not found: ".to_owned();
                r.append(path.as_str());
                r
            },
            Message::UninstallFailed { code } => {
                let mut r = "failed to uninstall service with status ".to_owned();
                r.append(signed_decimal_text(*code).as_str());
                r
            },
            Message::InstallFailed { code, details } => {
                let mut r = "failed to install service code: ".to_owned();
                r.append(signed_decimal_text(*code).as_str());
                r.append(", details: ");
                r.append(details.as_str());
                r
            },
            Message::ReinstallFailed { reason } => {
                let mut r = "failed to install service: ".to_owned();
                r.append(reason.summary().as_str());
                r
            },
            Message::CommandFailed { command } => {
                let mut r = command.label().to_owned();
                r.append(" failed");
                r
            },
            Message::CommandTaskFailed { command } => {
                let mut r = command.label().to_owned();
                r.append(" task failed");
                r
            },
            Message::ServiceUnavailable { reason } => {
                let mut r = "服务不可用: ".to_owned();
                r.append(reason.as_str());
                r
            },
            Message::TranslocatedCore { candidate } => {
                let mut r = "macOS App Translocation detected; refusing to start service with temporary core path ".to_owned();
                r.append(candidate.as_str());
                r
            },
            Message::ExitRollback { rollback } => {
                let mut r = "application began exiting during sidecar preparation; rollback errors: runtime file rollback failed: ".to_owned();
                r.append(rollback.detail.as_str());
                r
            },
            Message::TunFallbackRollback { rollback } => {
                let mut r = "failed to roll back the uncommitted TUN sidecar fallback: runtime file rollback failed: ".to_owned();
                r.append(rollback.detail.as_str());
                r
            },
            Message::InvalidCore { core } => {
                let mut r = "Invalid clash core: ".to_owned();
                r.append(core.as_str());
                r
            },
            Message::InheritanceFailed { reason } => {
                let mut r = "failed to prepare inherited sidecar core ownership: ".to_owned();
                r.append(reason.detail.as_str());
                r
            },
            Message::JobUnterminated { pid, job, kill } => {
                let mut r = "failed to configure Job Object for sidecar PID ".to_owned();
                r.append(decimal_text(*pid as u64).as_str());
                r.append(": ");
                r.append(job.detail().as_str());
                r.append("; failed to terminate child: ");
                r.append(kill.detail.as_str());
                r
            },
            Message::SidecarStartFailed { generation, pid, attach, kill } => {
                let mut r = "failed to start sidecar generation ".to_owned();
                r.append(decimal_text(*generation as u64).as_str());
                r.append(" PID ");
                r.append(decimal_text(*pid as u64).as_str());
                r.append(": failed to attach core ownership to sidecar: ");
                r.append(attach.detail.as_str());
                r.append(kill_text(kill).as_str());
                r
            },
            Message::JobUnretained { generation, pid, reason, kill } => {
                let mut r = "failed to retain Job Object for sidecar generation ".to_owned();
                r.append(decimal_text(*generation as u64).as_str());
                r.append(" PID ");
                r.append(decimal_text(*pid as u64).as_str());
                r.append(": ");
                r.append(reason.detail().as_str());
                r.append("; failed to terminate child: ");
                r.append(kill.detail.as_str());
                r
            },
            Message::OwnerUnretained { generation, pid, reason, kill } => {
                let mut r = "failed to retain core owner for sidecar generation ".to_owned();
                r.append(decimal_text(*generation as u64).as_str());
                r.append(" PID ");
                r.append(decimal_text(*pid as u64).as_str());
                r.append(": ");
                r.append(reason.detail().as_str());
                r.append("; failed to terminate child: ");
                r.append(kill.detail.as_str());
                r
            },
            Message::ChildUncommitted { generation, pid, reason, kill } => {
                let mut r = "failed to commit sidecar generation ".to_owned();
                r.append(decimal_text(*generation as u64).as_str());
                r.append(" PID ");
                r.append(decimal_text(*pid as u64).as_str());
                r.append(": ");
                r.append(reason.detail().as_str());
                r.append("; failed to terminate child: ");
                r.append(kill.detail.as_str());
                r
            },
            Message::JobHeld { generation } => {
                let mut r = "sidecar Job Object is already held by generation ".to_owned();
                r.append(decimal_text(*generation as u64).as_str());
                r
            },
            Message::OwnerHeld { generation, pid } => {
                let mut r = "sidecar core ownership is already held by generation ".to_owned();
                r.append(decimal_text(*generation as u64).as_str());
                r.append(" PID ");
                r.append(decimal_text(*pid as u64).as_str());
                r
            },
            Message::ChildStored { generation, pid } => {
                let mut r = "sidecar child is already stored for generation ".to_owned();
                r.append(decimal_text(*generation as u64).as_str());
                r.append(" PID ");
                r.append(decimal_text(*pid as u64).as_str());
                r
            },
            Message::OwnerWaitTimedOut { generation, pid } => {
                let mut r = "timed out waiting for sidecar generation ".to_owned();
                r.append(decimal_text(*generation as u64).as_str());
                r.append(" PID ");
                r.append(decimal_text(*pid as u64).as_str());
                r.append(" to release core ownership");
                r
            },
            Message::SidecarUnterminated { generation, pid, kill, wait } => {
                let mut r = "failed to terminate sidecar generation ".to_owned();
                r.append(decimal_text(*generation as u64).as_str());
                r.append(" PID ");
                r.append(decimal_text(*pid as u64).as_str());
                r.append(": ");
                r.append(kill.detail.as_str());
                r.append("; ");
                r.append(wait.detail().as_str());
                r
            },
            Message::IcsRestoreAfterRetries { reason } => {
                let mut r = "failed to restore persistent Windows ICS config after StartClash retries: ".to_owned();
                r.append(reason.detail().as_str());
                r
            },
            Message::WaitStatus { status } => {
                let mut r = "unexpected sidecar wait status ".to_owned();
                r.append(decimal_text(*status as u64).as_str());
                r
            },
            Message::ApplyFailed { reason } => {
                let mut r = "Failed to apply config: ".to_owned();
                r.append(reason.summary().as_str());
                r
            },
            Message::Outcome { text } => {
                text.as_str().to_owned()
            },
            Message::RollbackErrors { failures } => {
                let mut r = "rollback errors: ".to_owned();
                r.append(failures.text().as_str());
                r
            },
        }
    }
}

impl CoreError {
    /// The outermost message.
    pub open spec fn summary_wording(self) -> Seq<char>
        decreases self,
    {
        match self {
            CoreError::Outside(failure) => failure.summary@,
            CoreError::Plain(message) => message.wording(),
            CoreError::Context(message, _) => message.wording(),
        }
    }

    /// The message followed by everything that led to it, outermost first.
    pub open spec fn detail_wording(self) -> Seq<char>
        decreases self,
    {
        match self {
            CoreError::Outside(failure) => failure.detail@,
            CoreError::Plain(message) => message.wording(),
            CoreError::Context(message, cause) => message.wording() + ": "@
                + cause.detail_wording(),
        }
    }

    /// The text of the outermost message.
    pub fn summary(&self) -> (r: String)
        ensures
            r@ == self.summary_wording(),
        decreases self,
    {
        match self {
            CoreError::Outside(failure) => failure.summary.clone(),
            CoreError::Plain(message) => message.text(),
            CoreError::Context(message, _) => message.text(),
        }
    }

    /// The text of the message and of everything that led to it.
    pub fn detail(&self) -> (r: String)
        ensures
            r@ == self.detail_wording(),
        decreases self,
    {
        match self {
            CoreError::Outside(failure) => failure.detail.clone(),
            CoreError::Plain(message) => message.text(),
            CoreError::Context(message, cause) => {
                let mut r = message.text();
                r.append(": ");
                r.append(cause.detail().as_str());
                r
            },
        }
    }

    /// The error that is just `note`.
    pub open spec fn of(note: Note) -> CoreError {
        CoreError::Plain(Message::Note(note))
    }

    /// `self`, with `note` as its context.
    pub open spec fn within(self, note: Note) -> CoreError {
        CoreError::Context(Message::Note(note), Box::new(self))
    }
}

/// The error that is just `note`.
pub fn note_error(note: Note) -> (r: CoreError)
    ensures
        r == CoreError::of(note),
{
    CoreError::Plain(Message::Note(note))
}

/// `error`, with `note` as its context.
pub fn in_context(error: CoreError, note: Note) -> (r: CoreError)
    ensures
        r == error.within(note),
{
    CoreError::Context(Message::Note(note), Box::new(error))
}

/// An error is told by its own message, and in detail by everything that led to
/// it too, outermost first.
pub proof fn law_error_is_told_outermost_first(message: Message, note: Note, cause: CoreError)
    ensures
        CoreError::Context(message, Box::new(cause)).summary_wording() == message.wording(),
        CoreError::Context(message, Box::new(cause)).detail_wording() == message.wording()
            + ": "@ + cause.detail_wording(),
        CoreError::Plain(message).summary_wording() == message.wording(),
        CoreError::Plain(message).detail_wording() == message.wording(),
        cause.within(note) == CoreError::Context(Message::Note(note), Box::new(cause)),
        CoreError::of(note) == CoreError::Plain(Message::Note(note)),
        Message::Note(note).wording() == note.wording(),
{
    reveal_with_fuel(CoreError::detail_wording, 2);
    reveal_with_fuel(CoreError::summary_wording, 2);
    reveal_with_fuel(Message::wording, 2);
}

/// An error from outside is told as it came.
pub proof fn law_outside_error_is_told_as_it_came(failure: Failure)
    ensures
        CoreError::Outside(failure).summary_wording() == failure.summary@,
        CoreError::Outside(failure).detail_wording() == failure.detail@,
{
}

/// A message that tells of something holds what it tells of: the reason, the
/// text or the name, at its end.
pub proof fn law_messages_hold_what_they_tell_of(
    text: String,
    other: String,
    reason: CoreError,
    command: ServiceCommand,
    code: i32,
)
    ensures
        (Message::Reply { text }).wording() == text@,
        (Message::Outcome { text }).wording() == text@,
        (Message::InvalidCore { core: text }).wording() == "Invalid clash core: "@ + text@,
        (Message::ServiceUnavailable { reason: text }).wording() == "服务不可用: "@ + text@,
        (Message::InstallerNotFound { path: text }).wording() == "installer not found: "@ + text@,
        (Message::UninstallerNotFound { path: text }).wording() == "uninstaller not found: "@
            + text@,
        (Message::VersionMismatch { version: text, bundled: other }).wording()
            == "Clash Verge Service version "@ + text@
            + " is incompatible with bundled protocol "@ + other@,
        (Message::InstallFailed { code, details: text }).wording()
            == "failed to install service code: "@ + signed_decimal(code as int) + ", details: "@
            + text@,
        (Message::UninstallFailed { code }).wording() == "failed to uninstall service with status "@
            + signed_decimal(code as int),
        (Message::ReinstallFailed { reason: Box::new(reason) }).wording()
            == "failed to install service: "@ + reason.summary_wording(),
        (Message::ApplyFailed { reason: Box::new(reason) }).wording() == "Failed to apply config: "@
            + reason.summary_wording(),
        (Message::IcsRestoreAfterRetries { reason: Box::new(reason) }).wording()
            == "failed to restore persistent Windows ICS config after StartClash retries: "@
            + reason.detail_wording(),
        (Message::CommandFailed { command }).wording() == command.label_wording() + " failed"@,
        (Message::CommandTaskFailed { command }).wording() == command.label_wording()
            + " task failed"@,
{
    reveal_with_fuel(Message::wording, 2);
}

/// Messages of a sidecar name it by its generation and its process.
pub proof fn law_messages_name_the_sidecar(
    generation: u64,
    pid: u32,
    wait: CoreError,
    kill: Failure,
)
    ensures
        ({
            let named = decimal(generation as nat) + " PID "@ + decimal(pid as nat);
            &&& Message::OwnerHeld { generation, pid }.wording()
                == "sidecar core ownership is already held by generation "@ + named
            &&& Message::ChildStored { generation, pid }.wording()
                == "sidecar child is already stored for generation "@ + named
            &&& Message::OwnerWaitTimedOut { generation, pid }.wording()
                == "timed out waiting for sidecar generation "@ + named
                + " to release core ownership"@
            &&& Message::SidecarUnterminated {
                generation,
                pid,
                kill,
                wait: Box::new(wait),
            }.wording() == "failed to terminate sidecar generation "@ + named + ": "@ + kill.detail@
                + "; "@ + wait.detail_wording()
            &&& Message::JobHeld { generation }.wording()
                == "sidecar Job Object is already held by generation "@ + decimal(
                generation as nat,
            )
        }),
{
    reveal_with_fuel(Message::wording, 2);
    let named = decimal(generation as nat) + " PID "@ + decimal(pid as nat);
    assert(Message::OwnerHeld { generation, pid }.wording()
        =~= "sidecar core ownership is already held by generation "@ + named);
    assert(Message::ChildStored { generation, pid }.wording()
        =~= "sidecar child is already stored for generation "@ + named);
    assert(Message::OwnerWaitTimedOut { generation, pid }.wording()
        =~= "timed out waiting for sidecar generation "@ + named + " to release core ownership"@);
    assert(Message::SidecarUnterminated { generation, pid, kill, wait: Box::new(wait) }.wording()
        =~= "failed to terminate sidecar generation "@ + named + ": "@ + kill.detail@ + "; "@
        + wait.detail_wording());
}

/// A generation that is not known is told so, and a kill that failed is told of
/// behind what it was for.
pub proof fn law_unknown_generation_is_told(generation: u64, kill: Failure)
    ensures
        generation_wording(Some(generation)) == decimal(generation as nat),
        generation_wording(None) == "unknown"@,
        kill_wording(None).len() == 0,
        kill_wording(Some(kill)) == "; failed to terminate sidecar: "@ + kill.detail@,
{
}

} // verus!
