//! The state of the helper service and the operations that change it.

use super::command::ServiceCommand;
use super::ipc::{data_reply, read_data, IpcResponse};
use crate::error::{note_error, CoreError, Failure, Message, Note};
use crate::platform::Platform;
use vstd::prelude::*;

verus! {

/// What is known of the service, or asked of it.
#[derive(Debug, PartialEq, Eq)]
pub enum ServiceStatus {
    Ready,
    NeedsReinstall,
    InstallRequired,
    UninstallRequired,
    ReinstallRequired,
    ForceReinstallRequired,
    Unavailable(String),
}

/// The view of a service status.
pub enum StatusView {
    Ready,
    NeedsReinstall,
    InstallRequired,
    UninstallRequired,
    ReinstallRequired,
    ForceReinstallRequired,
    Unavailable(Seq<char>),
}

impl View for ServiceStatus {
    type V = StatusView;

    open spec fn view(&self) -> StatusView {
        match self {
            ServiceStatus::Ready => StatusView::Ready,
            ServiceStatus::NeedsReinstall => StatusView::NeedsReinstall,
            ServiceStatus::InstallRequired => StatusView::InstallRequired,
            ServiceStatus::UninstallRequired => StatusView::UninstallRequired,
            ServiceStatus::ReinstallRequired => StatusView::ReinstallRequired,
            ServiceStatus::ForceReinstallRequired => StatusView::ForceReinstallRequired,
            ServiceStatus::Unavailable(reason) => StatusView::Unavailable(reason@),
        }
    }
}

impl Clone for ServiceStatus {
    fn clone(&self) -> (r: Self)
        ensures
            r == *self,
    {
        match self {
            ServiceStatus::Ready => ServiceStatus::Ready,
            ServiceStatus::NeedsReinstall => ServiceStatus::NeedsReinstall,
            ServiceStatus::InstallRequired => ServiceStatus::InstallRequired,
            ServiceStatus::UninstallRequired => ServiceStatus::UninstallRequired,
            ServiceStatus::ReinstallRequired => ServiceStatus::ReinstallRequired,
            ServiceStatus::ForceReinstallRequired => ServiceStatus::ForceReinstallRequired,
            ServiceStatus::Unavailable(reason) => ServiceStatus::Unavailable(reason.clone()),
        }
    }
}

/// How patient a client of the service is, in milliseconds and attempts.
#[derive(Debug, Clone, Copy, PartialEq, Eq, Structural)]
pub struct IpcConfig {
    pub default_timeout: u64,
    pub retry_delay: u64,
    pub max_retries: usize,
}

/// Where the service is in its life.
#[derive(Debug, Clone, Copy, PartialEq, Eq, Structural)]
pub enum ServiceLifecycleState {
    Running,
    Fatal,
    /// Any state in which the service is neither running nor broken.
    Other,
}

/// What a running service says of itself.
#[derive(Debug, Clone, Copy, PartialEq, Eq, Structural)]
pub struct ServiceStatusSnapshot {
    pub core_pid: Option<u32>,
    pub core_owner_held: bool,
    pub service_state: ServiceLifecycleState,
}

/// The state of the service and of what is being done to it.
#[derive(Debug)]
pub struct ServiceManager {
    pub platform: Platform,
    pub status: ServiceStatus,
    pub operation_running: bool,
    /// Maintenance at startup can ask the user for rights, and does so once.
    pub startup_maintenance_attempted: bool,
    /// Set once a service of another version has been seen; only a matching
    /// service that answers clears it.
    pub upgrade_pending: bool,
}

/// The view of a service manager.
pub struct ServiceManagerView {
    pub platform: Platform,
    pub status: StatusView,
    pub operation_running: bool,
    pub startup_maintenance_attempted: bool,
    pub upgrade_pending: bool,
}

impl View for ServiceManager {
    type V = ServiceManagerView;

    open spec fn view(&self) -> ServiceManagerView {
        ServiceManagerView {
            platform: self.platform,
            status: self.status@,
            operation_running: self.operation_running,
            startup_maintenance_attempted: self.startup_maintenance_attempted,
            upgrade_pending: self.upgrade_pending,
        }
    }
}

/// Where an operation on the service stands.
#[derive(Debug, Clone, Copy, PartialEq, Eq, Structural)]
pub enum ServiceFlow {
    /// The service is being asked whether its version matches.
    CheckingVersion,
    /// A command runs; `verify` is whether the version is checked after it.
    RunningCommand { command: ServiceCommand, verify: bool },
    /// The service is being waited for.
    WaitingForIpc { verify: bool },
    /// A freshly installed service is being asked whether its version matches.
    VerifyingInstall,
    /// The operation is over and the menu is being brought up to date.
    UpdatingMenu,
    Finished,
}

/// What comes back from outside.
#[derive(Debug)]
pub enum ServiceEvent {
    ReinstallNeeded(bool),
    CommandDone(Result<(), CoreError>),
    IpcWaited(Result<(), CoreError>),
    MenuUpdated(Result<(), Failure>),
}

/// What to do next. With `UpdateMenu`, and with a `Finish` that follows no
/// `UpdateMenu`, the operation is over and those who wait for it are woken.
#[derive(Debug)]
pub enum ServiceAction {
    QueryReinstallNeeded,
    RunCommand(ServiceCommand),
    WaitForServiceIpc,
    UpdateMenu,
    Finish(Result<(), CoreError>),
    Ignore,
}

impl ServiceManagerView {
    /// The manager once a version mismatch counts as seen; only Windows keeps
    /// track of that.
    pub open spec fn with_upgrade_latched(self) -> Self {
        ServiceManagerView {
            upgrade_pending: self.upgrade_pending || self.platform is Windows,
            ..self
        }
    }

    pub open spec fn with_status(self, status: StatusView) -> Self {
        ServiceManagerView { status, ..self }
    }

    /// The operation ends well: the menu is brought up to date.
    pub open spec fn succeeded(self) -> (Self, ServiceFlow, ServiceAction) {
        (
            ServiceManagerView { operation_running: false, ..self },
            ServiceFlow::UpdatingMenu,
            ServiceAction::UpdateMenu,
        )
    }

    /// The operation ends in an error.
    pub open spec fn failed(self, error: CoreError) -> (Self, ServiceFlow, ServiceAction) {
        (
            ServiceManagerView { operation_running: false, ..self },
            ServiceFlow::Finished,
            ServiceAction::Finish(Err(error)),
        )
    }

    /// A command is run.
    pub open spec fn commanded(self, command: ServiceCommand, verify: bool) -> (
        Self,
        ServiceFlow,
        ServiceAction,
    ) {
        (
            self,
            ServiceFlow::RunningCommand { command, verify },
            ServiceAction::RunCommand(command),
        )
    }

    /// What taking the service to be in `status`, or asking that of it, sets
    /// off. The status is recorded first in any case.
    pub open spec fn applied(self, status: ServiceStatus) -> (Self, ServiceFlow, ServiceAction) {
        let m = self.with_status(status@);
        match status {
            ServiceStatus::Ready => m.succeeded(),
            ServiceStatus::NeedsReinstall | ServiceStatus::ReinstallRequired => {
                m.with_upgrade_latched().commanded(ServiceCommand::Reinstall, false)
            },
            ServiceStatus::ForceReinstallRequired => m.with_upgrade_latched().commanded(
                ServiceCommand::ForceReinstall,
                false,
            ),
            ServiceStatus::InstallRequired => m.with_upgrade_latched().commanded(
                ServiceCommand::Install,
                true,
            ),
            ServiceStatus::UninstallRequired => m.commanded(ServiceCommand::Uninstall, false),
            ServiceStatus::Unavailable(reason) => m.failed(
                CoreError::Plain(Message::ServiceUnavailable { reason }),
            ),
        }
    }

    /// The start of an operation, of which there is one at a time.
    pub open spec fn admitted(self) -> Self {
        ServiceManagerView { operation_running: true, ..self }
    }

    /// Where an operation goes from `flow` on `event`.
    pub open spec fn service_next(self, flow: ServiceFlow, event: ServiceEvent) -> (
        Self,
        ServiceFlow,
        ServiceAction,
    ) {
        match (flow, event) {
            (ServiceFlow::CheckingVersion, ServiceEvent::ReinstallNeeded(needed)) => if needed {
                self.with_upgrade_latched().applied(ServiceStatus::NeedsReinstall)
            } else {
                self.applied(ServiceStatus::Ready)
            },
            (
                ServiceFlow::RunningCommand { command, verify },
                ServiceEvent::CommandDone(result),
            ) => match result {
                Err(error) => self.failed(error),
                Ok(()) => if command is Uninstall {
                    self.with_status(StatusView::Unavailable("Service Uninstalled"@)).succeeded()
                } else {
                    (
                        self,
                        ServiceFlow::WaitingForIpc { verify },
                        ServiceAction::WaitForServiceIpc,
                    )
                },
            },
            (ServiceFlow::WaitingForIpc { verify }, ServiceEvent::IpcWaited(result)) => match result {
                Err(error) => self.with_status(
                    StatusView::Unavailable("Waiting for service to be available"@),
                ).failed(error),
                Ok(()) => if verify {
                    (
                        self.with_status(StatusView::Ready),
                        ServiceFlow::VerifyingInstall,
                        ServiceAction::QueryReinstallNeeded,
                    )
                } else {
                    self.with_status(StatusView::Ready).succeeded()
                },
            },
            (ServiceFlow::VerifyingInstall, ServiceEvent::ReinstallNeeded(needed)) => if needed {
                self.with_upgrade_latched().with_status(StatusView::NeedsReinstall).commanded(
                    ServiceCommand::Reinstall,
                    false,
                )
            } else {
                self.succeeded()
            },
            (ServiceFlow::UpdatingMenu, ServiceEvent::MenuUpdated(result)) => (
                self,
                ServiceFlow::Finished,
                ServiceAction::Finish(
                    match result {
                        Ok(()) => Ok(()),
                        Err(failure) => Err(CoreError::Outside(failure)),
                    },
                ),
            ),
            (flow, _) => (self, flow, ServiceAction::Ignore),
        }
    }
}

/// Whether a service of another version has been seen and not replaced since.
pub fn incompatible_service_upgrade_pending(manager: &ServiceManager) -> (r: bool)
    ensures
        r == manager.upgrade_pending,
{
    manager.upgrade_pending
}

/// Notes that a service of another version has been seen.
pub fn mark_incompatible_service_upgrade_pending(manager: &mut ServiceManager)
    ensures
        final(manager)@ == (ServiceManagerView { upgrade_pending: true, ..old(manager)@ }),
{
    manager.upgrade_pending = true;
}

/// Whether a status proves that the service runs a core: it must be running
/// itself, and name the process.
pub fn service_status_confirms_running_core(
    core_pid: Option<u32>,
    service_state: ServiceLifecycleState,
) -> (r: bool)
    ensures
        r == (core_pid is Some && service_state is Running),
{
    core_pid.is_some() && match service_state {
        ServiceLifecycleState::Running => true,
        _ => false,
    }
}

/// What one try to reach the service, while it is being waited for, comes to;
/// `connection` is made only where its endpoint is there.
pub fn ipc_attempt(endpoint_present: bool, connection: Result<(), Failure>) -> (r: Result<
    (),
    CoreError,
>)
    ensures
        r == (if !endpoint_present {
            Err::<(), CoreError>(CoreError::of(Note::IpcPathNotReady))
        } else {
            match connection {
                Ok(()) => Ok::<(), CoreError>(()),
                Err(failure) => Err::<(), CoreError>(CoreError::Outside(failure)),
            }
        }),
{
    if !endpoint_present {
        return Err(note_error(Note::IpcPathNotReady));
    }
    match connection {
        Ok(()) => Ok(()),
        Err(failure) => Err(CoreError::Outside(failure)),
    }
}

/// Wraps the outcome of a command in its name: `outcome` is an error where the
/// task that ran the command broke, and holds the command's own result
/// otherwise.
pub fn run_service_command(
    command: ServiceCommand,
    outcome: Result<Result<(), CoreError>, Failure>,
) -> (r: Result<(), CoreError>)
    ensures
        r == (match outcome {
            Err(failure) => Err(
                CoreError::Context(
                    (Message::CommandTaskFailed { command }),
                    Box::new(CoreError::Outside(failure)),
                ),
            ),
            Ok(Err(error)) => Err(
                CoreError::Context((Message::CommandFailed { command }), Box::new(error)),
            ),
            Ok(Ok(())) => Ok(()),
        }),
{
    match outcome {
        Err(failure) => Err(
            CoreError::Context(
                Message::CommandTaskFailed { command },
                Box::new(CoreError::Outside(failure)),
            ),
        ),
        Ok(Err(error)) => Err(
            CoreError::Context(Message::CommandFailed { command }, Box::new(error)),
        ),
        Ok(Ok(())) => Ok(()),
    }
}

impl ServiceManager {
    /// A manager that has not looked at the service yet.
    pub fn new(platform: Platform) -> (r: Self)
        ensures
            r@ == (ServiceManagerView {
                platform,
                status: StatusView::Unavailable("Need Checks"@),
                operation_running: false,
                startup_maintenance_attempted: false,
                upgrade_pending: false,
            }),
    {
        ServiceManager {
            platform,
            status: ServiceStatus::Unavailable("Need Checks".to_owned()),
            operation_running: false,
            startup_maintenance_attempted: false,
            upgrade_pending: false,
        }
    }

    /// Gives up the operation that is under way: it is over, and all else stays
    /// as it is.
    pub fn abandon_operation(&mut self)
        ensures
            final(self)@ == (ServiceManagerView { operation_running: false, ..old(self)@ }),
    {
        self.operation_running = false;
    }

    /// How patient clients of the service are.
    pub fn config() -> (r: IpcConfig)
        ensures
            r == (IpcConfig { default_timeout: 150, retry_delay: 250, max_retries: 20 }),
    {
        IpcConfig { default_timeout: 150, retry_delay: 250, max_retries: 20 }
    }

    /// Takes in the outcome of a first connection to the service.
    pub fn init(&mut self, connection: Result<(), Failure>) -> (r: Result<(), CoreError>)
        ensures
            r == (match connection {
                Ok(()) => Ok(()),
                Err(failure) => Err(CoreError::Outside(failure)),
            }),
            final(self)@ == (match connection {
                Ok(()) => old(self)@,
                Err(_) => old(self)@.with_status(StatusView::Unavailable("服务连接失败: {e}"@)),
            }),
    {
        match connection {
            Ok(()) => Ok(()),
            Err(failure) => {
                self.set_status(ServiceStatus::Unavailable("服务连接失败: {e}".to_owned()));
                Err(CoreError::Outside(failure))
            },
        }
    }

    /// The status, once no operation is changing it.
    pub fn current(&self) -> (r: Option<ServiceStatus>)
        ensures
            r == (if self.operation_running {
                None
            } else {
                Some(self.status)
            }),
    {
        if self.operation_running {
            None
        } else {
            Some(self.status.clone())
        }
    }

    /// Records a status.
    pub fn set_status(&mut self, status: ServiceStatus)
        ensures
            final(self)@ == old(self)@.with_status(status@),
            final(self).status == status,
    {
        self.status = status;
    }

    /// Begins to check the service and bring it up to date.
    pub fn refresh(&mut self) -> (r: (ServiceFlow, ServiceAction))
        ensures
            (final(self)@, r.0, r.1) == (if old(self).operation_running {
                (
                    old(self)@,
                    ServiceFlow::Finished,
                    ServiceAction::Finish(Err(CoreError::of(Note::OperationRunning))),
                )
            } else {
                (
                    old(self)@.admitted(),
                    ServiceFlow::CheckingVersion,
                    ServiceAction::QueryReinstallNeeded,
                )
            }),
    {
        if self.operation_running {
            (
                ServiceFlow::Finished,
                ServiceAction::Finish(Err(note_error(Note::OperationRunning))),
            )
        } else {
            self.operation_running = true;
            (ServiceFlow::CheckingVersion, ServiceAction::QueryReinstallNeeded)
        }
    }

    /// Begins what `status` asks for.
    pub fn handle_service_status(&mut self, status: ServiceStatus) -> (r: (
        ServiceFlow,
        ServiceAction,
    ))
        ensures
            (final(self)@, r.0, r.1) == (if old(self).operation_running {
                (
                    old(self)@,
                    ServiceFlow::Finished,
                    ServiceAction::Finish(Err(CoreError::of(Note::OperationRunning))),
                )
            } else {
                old(self)@.admitted().applied(status)
            }),
            !old(self).operation_running ==> match status {
                ServiceStatus::NeedsReinstall | ServiceStatus::ReinstallRequired => r.1
                    == ServiceAction::RunCommand(ServiceCommand::Reinstall),
                ServiceStatus::ForceReinstallRequired => r.1 == ServiceAction::RunCommand(
                    ServiceCommand::ForceReinstall,
                ),
                ServiceStatus::InstallRequired => r.1 == ServiceAction::RunCommand(
                    ServiceCommand::Install,
                ),
                ServiceStatus::UninstallRequired => r.1 == ServiceAction::RunCommand(
                    ServiceCommand::Uninstall,
                ),
                ServiceStatus::Ready => r.1 is UpdateMenu,
                ServiceStatus::Unavailable(reason) => r.1 == ServiceAction::Finish(
                    Err(CoreError::Plain((Message::ServiceUnavailable { reason }))),
                ),
            },
    {
        if self.operation_running {
            (
                ServiceFlow::Finished,
                ServiceAction::Finish(Err(note_error(Note::OperationRunning))),
            )
        } else {
            self.operation_running = true;
            self.apply_service_status(status)
        }
    }

    fn latch_upgrade(&mut self)
        ensures
            final(self)@ == old(self)@.with_upgrade_latched(),
    {
        match self.platform {
            Platform::Windows => mark_incompatible_service_upgrade_pending(self),
            _ => {},
        }
    }

    fn end_operation(&mut self, result: Result<(), CoreError>) -> (r: (ServiceFlow, ServiceAction))
        ensures
            (final(self)@, r.0, r.1) == (match result {
                Ok(()) => old(self)@.succeeded(),
                Err(error) => old(self)@.failed(error),
            }),
    {
        self.operation_running = false;
        match result {
            Ok(()) => (ServiceFlow::UpdatingMenu, ServiceAction::UpdateMenu),
            Err(error) => (ServiceFlow::Finished, ServiceAction::Finish(Err(error))),
        }
    }

    fn apply_service_status(&mut self, status: ServiceStatus) -> (r: (ServiceFlow, ServiceAction))
        ensures
            (final(self)@, r.0, r.1) == old(self)@.applied(status),
    {
        self.set_status(status.clone());
        match status {
            ServiceStatus::Ready => self.end_operation(Ok(())),
            ServiceStatus::NeedsReinstall | ServiceStatus::ReinstallRequired => {
                self.latch_upgrade();
                run_command(ServiceCommand::Reinstall, false)
            },
            ServiceStatus::ForceReinstallRequired => {
                self.latch_upgrade();
                run_command(ServiceCommand::ForceReinstall, false)
            },
            ServiceStatus::InstallRequired => {
                self.latch_upgrade();
                run_command(ServiceCommand::Install, true)
            },
            ServiceStatus::UninstallRequired => run_command(ServiceCommand::Uninstall, false),
            ServiceStatus::Unavailable(reason) => self.end_operation(
                Err(CoreError::Plain(Message::ServiceUnavailable { reason })),
            ),
        }
    }

    /// Takes in how waiting for the service ended: it is ready, or it is not
    /// available.
    pub fn wait_for_service_ipc(&mut self, waited: &Result<(), CoreError>)
        ensures
            final(self)@ == old(self)@.with_status(
                match *waited {
                    Ok(()) => StatusView::Ready,
                    Err(_) => StatusView::Unavailable("Waiting for service to be available"@),
                },
            ),
    {
        match waited {
            Ok(()) => self.set_status(ServiceStatus::Ready),
            Err(_) => self.set_status(
                ServiceStatus::Unavailable("Waiting for service to be available".to_owned()),
            ),
        }
    }

    /// Takes an operation one event further.
    pub fn service_step(&mut self, flow: ServiceFlow, event: ServiceEvent) -> (r: (
        ServiceFlow,
        ServiceAction,
    ))
        ensures
            (final(self)@, r.0, r.1) == old(self)@.service_next(flow, event),
    {
        match (flow, event) {
            (ServiceFlow::CheckingVersion, ServiceEvent::ReinstallNeeded(needed)) => if needed {
                self.latch_upgrade();
                self.apply_service_status(ServiceStatus::NeedsReinstall)
            } else {
                self.apply_service_status(ServiceStatus::Ready)
            },
            (
                ServiceFlow::RunningCommand { command, verify },
                ServiceEvent::CommandDone(result),
            ) => match result {
                Err(error) => self.end_operation(Err(error)),
                Ok(()) => match command {
                    ServiceCommand::Uninstall => {
                        self.set_status(
                            ServiceStatus::Unavailable("Service Uninstalled".to_owned()),
                        );
                        self.end_operation(Ok(()))
                    },
                    _ => (ServiceFlow::WaitingForIpc { verify }, ServiceAction::WaitForServiceIpc),
                },
            },
            (ServiceFlow::WaitingForIpc { verify }, ServiceEvent::IpcWaited(result)) => {
                self.wait_for_service_ipc(&result);
                match result {
                    Err(error) => self.end_operation(Err(error)),
                    Ok(()) => if verify {
                        (ServiceFlow::VerifyingInstall, ServiceAction::QueryReinstallNeeded)
                    } else {
                        self.end_operation(Ok(()))
                    },
                }
            },
            (ServiceFlow::VerifyingInstall, ServiceEvent::ReinstallNeeded(needed)) => if needed {
                self.latch_upgrade();
                self.set_status(ServiceStatus::NeedsReinstall);
                run_command(ServiceCommand::Reinstall, false)
            } else {
                self.end_operation(Ok(()))
            },
            (ServiceFlow::UpdatingMenu, ServiceEvent::MenuUpdated(result)) => (
                ServiceFlow::Finished,
                ServiceAction::Finish(
                    match result {
                        Ok(()) => Ok(()),
                        Err(failure) => Err(CoreError::Outside(failure)),
                    },
                ),
            ),
            (flow, _) => (flow, ServiceAction::Ignore),
        }
    }
}

fn run_command(command: ServiceCommand, verify: bool) -> (r: (ServiceFlow, ServiceAction))
    ensures
        r == ((ServiceFlow::RunningCommand { command, verify }), ServiceAction::RunCommand(command)),
{
    (ServiceFlow::RunningCommand { command, verify }, ServiceAction::RunCommand(command))
}

/// Where asking a service for its status, and first whether it speaks the
/// bundled protocol, stands.
#[derive(Debug)]
pub enum ProbeFlow {
    /// Its endpoint is being looked for; `bundled` is the protocol version.
    CheckingEndpoint { bundled: String },
    QueryingVersion { bundled: String },
    QueryingStatus,
    Finished,
}

/// What comes back from outside.
#[derive(Debug)]
pub enum ProbeEvent {
    Endpoint(bool),
    Version(Result<IpcResponse<String>, Failure>),
    Status(Result<IpcResponse<ServiceStatusSnapshot>, Failure>),
}

/// What to ask next.
#[derive(Debug)]
pub enum ProbeAction {
    CheckEndpoint,
    QueryVersion,
    QueryStatus,
    Finish(Result<ServiceStatusSnapshot, CoreError>),
    Ignore,
}

/// The reading of a status reply.
pub open spec fn status_reply(reply: Result<IpcResponse<ServiceStatusSnapshot>, Failure>) -> Result<
    ServiceStatusSnapshot,
    CoreError,
> {
    data_reply(reply, Note::StatusUnreachable, Note::StatusMissing)
}

/// Reads the reply to a request for the service's status.
pub fn query_service_status(reply: Result<IpcResponse<ServiceStatusSnapshot>, Failure>) -> (r:
    Result<ServiceStatusSnapshot, CoreError>)
    ensures
        r == status_reply(reply),
{
    read_data(reply, Note::StatusUnreachable, Note::StatusMissing)
}

impl ServiceManagerView {
    /// Where a probe goes from `flow` on `event`.
    pub open spec fn probe_next(self, flow: ProbeFlow, event: ProbeEvent) -> (
        Self,
        ProbeFlow,
        ProbeAction,
    ) {
        match (flow, event) {
            (ProbeFlow::CheckingEndpoint { bundled }, ProbeEvent::Endpoint(present)) => if present {
                (self, ProbeFlow::QueryingVersion { bundled }, ProbeAction::QueryVersion)
            } else {
                (
                    self,
                    ProbeFlow::Finished,
                    ProbeAction::Finish(Err(CoreError::of(Note::EndpointAbsent))),
                )
            },
            (ProbeFlow::QueryingVersion { bundled }, ProbeEvent::Version(reply)) => match data_reply(
                reply,
                Note::VersionUnreachable,
                Note::VersionMissing,
            ) {
                Err(error) => (self, ProbeFlow::Finished, ProbeAction::Finish(Err(error))),
                Ok(version) => if version@ != bundled@ {
                    (
                        ServiceManagerView { upgrade_pending: true, ..self },
                        ProbeFlow::Finished,
                        ProbeAction::Finish(
                            Err(CoreError::Plain(Message::VersionMismatch { version, bundled })),
                        ),
                    )
                } else {
                    (self, ProbeFlow::QueryingStatus, ProbeAction::QueryStatus)
                },
            },
            (ProbeFlow::QueryingStatus, ProbeEvent::Status(reply)) => match status_reply(reply) {
                Err(error) => (self, ProbeFlow::Finished, ProbeAction::Finish(Err(error))),
                Ok(status) => (
                    ServiceManagerView { upgrade_pending: false, ..self },
                    ProbeFlow::Finished,
                    ProbeAction::Finish(Ok(status)),
                ),
            },
            (flow, _) => (self, flow, ProbeAction::Ignore),
        }
    }
}

/// Begins to ask a service for its status, which counts only if the service
/// speaks protocol version `bundled`.
pub fn query_compatible_service_status(bundled: String) -> (r: (ProbeFlow, ProbeAction))
    ensures
        r == ((ProbeFlow::CheckingEndpoint { bundled }), ProbeAction::CheckEndpoint),
{
    (ProbeFlow::CheckingEndpoint { bundled }, ProbeAction::CheckEndpoint)
}

impl ServiceManager {
    /// Takes a probe one event further.
    pub fn probe_step(&mut self, flow: ProbeFlow, event: ProbeEvent) -> (r: (
        ProbeFlow,
        ProbeAction,
    ))
        ensures
            (final(self)@, r.0, r.1) == old(self)@.probe_next(flow, event),
    {
        match (flow, event) {
            (ProbeFlow::CheckingEndpoint { bundled }, ProbeEvent::Endpoint(present)) => if present {
                (ProbeFlow::QueryingVersion { bundled }, ProbeAction::QueryVersion)
            } else {
                (
                    ProbeFlow::Finished,
                    ProbeAction::Finish(Err(note_error(Note::EndpointAbsent))),
                )
            },
            (ProbeFlow::QueryingVersion { bundled }, ProbeEvent::Version(reply)) => match read_data(
                reply,
                Note::VersionUnreachable,
                Note::VersionMissing,
            ) {
                Err(error) => (ProbeFlow::Finished, ProbeAction::Finish(Err(error))),
                Ok(version) => if version != bundled {
                    mark_incompatible_service_upgrade_pending(self);
                    (
                        ProbeFlow::Finished,
                        ProbeAction::Finish(
                            Err(CoreError::Plain(Message::VersionMismatch { version, bundled })),
                        ),
                    )
                } else {
                    (ProbeFlow::QueryingStatus, ProbeAction::QueryStatus)
                },
            },
            (ProbeFlow::QueryingStatus, ProbeEvent::Status(reply)) => match query_service_status(
                reply,
            ) {
                Err(error) => (ProbeFlow::Finished, ProbeAction::Finish(Err(error))),
                Ok(status) => {
                    self.upgrade_pending = false;
                    (ProbeFlow::Finished, ProbeAction::Finish(Ok(status)))
                },
            },
            (flow, _) => (flow, ProbeAction::Ignore),
        }
    }
}

/// Whether the service runs a core, from the outcome of a probe.
pub fn service_core_running(probe: Result<ServiceStatusSnapshot, CoreError>) -> (r: Result<
    bool,
    CoreError,
>)
    ensures
        r == (match probe {
            Ok(status) => Ok(status.core_pid is Some && status.service_state is Running),
            Err(error) => Err(error),
        }),
{
    match probe {
        Ok(status) => Ok(
            service_status_confirms_running_core(status.core_pid, status.service_state),
        ),
        Err(error) => Err(error),
    }
}

} // verus!
