//! What holds of the operations on the service as a whole.

use super::client::{run_core_next, RunCoreAction, RunCoreFlow};
use super::command::ServiceCommand;
use super::status::{
    ProbeAction, ProbeEvent, ProbeFlow, ServiceAction, ServiceEvent, ServiceFlow,
    ServiceManagerView, ServiceStatus, StatusView,
};
use crate::error::{CoreError, Failure, Message, Note};
use vstd::prelude::*;
use vstd::string::*;

verus! {

/// The mark of a service of another version is cleared only by a service of
/// the bundled version that says how it is.
pub proof fn law_upgrade_mark_is_cleared_by_a_matching_service(
    manager: ServiceManagerView,
    flow: ProbeFlow,
    event: ProbeEvent,
)
    requires
        manager.upgrade_pending,
        !manager.probe_next(flow, event).0.upgrade_pending,
    ensures
        flow is QueryingStatus,
        event is Status,
        super::status::status_reply(event->Status_0) is Ok,
{
}

/// A service is asked how it is only if it said that it is of the bundled
/// version; one of another version is marked.
pub proof fn law_other_version_is_marked(
    manager: ServiceManagerView,
    flow: ProbeFlow,
    event: ProbeEvent,
)
    requires
        flow is QueryingVersion,
        event is Version,
        super::ipc::data_reply(
            event->Version_0,
            crate::error::Note::VersionUnreachable,
            crate::error::Note::VersionMissing,
        ) is Ok,
    ensures
        ({
            let version = super::ipc::data_reply(
                event->Version_0,
                crate::error::Note::VersionUnreachable,
                crate::error::Note::VersionMissing,
            )->Ok_0;
            let next = manager.probe_next(flow, event);
            &&& next.2 is QueryStatus <==> version@ == flow->QueryingVersion_bundled@
            &&& !(next.2 is QueryStatus) ==> next.0.upgrade_pending && next.2 is Finish
                && next.2->Finish_0 is Err
        }),
{
}

/// No operation on the service clears the mark of a service of another
/// version.
pub proof fn law_operations_keep_the_upgrade_mark(
    manager: ServiceManagerView,
    flow: ServiceFlow,
    event: ServiceEvent,
    status: ServiceStatus,
)
    requires
        manager.upgrade_pending,
    ensures
        manager.service_next(flow, event).0.upgrade_pending,
        manager.applied(status).0.upgrade_pending,
{
}

/// An operation counts as running until it ends, and no longer.
pub proof fn law_operation_runs_until_it_ends(
    manager: ServiceManagerView,
    flow: ServiceFlow,
    event: ServiceEvent,
)
    requires
        manager.operation_running,
        !(flow is UpdatingMenu),
    ensures
        ({
            let next = manager.service_next(flow, event);
            next.0.operation_running <==> !(next.2 is UpdateMenu) && !(next.2 is Finish)
        }),
{
}

/// On Windows a service is marked as one of another version before anything
/// is installed over it.
pub proof fn law_installation_is_marked_first(
    manager: ServiceManagerView,
    flow: ServiceFlow,
    event: ServiceEvent,
)
    requires
        manager.platform is Windows,
        manager.service_next(flow, event).2 is RunCommand,
    ensures
        manager.service_next(flow, event).0.upgrade_pending,
{
}

/// How often the service is told to run a command while `events` come in.
pub open spec fn commands_run(
    manager: ServiceManagerView,
    flow: ServiceFlow,
    events: Seq<ServiceEvent>,
) -> nat
    decreases events.len(),
{
    if events.len() == 0 {
        0
    } else {
        let next = manager.service_next(flow, events[0]);
        (if next.2 is RunCommand {
            1nat
        } else {
            0nat
        }) + commands_run(next.0, next.1, events.drop_first())
    }
}

/// How many commands an operation that stands at `flow` may still run.
pub open spec fn commands_left(flow: ServiceFlow) -> nat {
    match flow {
        ServiceFlow::CheckingVersion => 1,
        ServiceFlow::RunningCommand { command, verify } => if verify {
            1
        } else {
            0
        },
        ServiceFlow::WaitingForIpc { verify } => if verify {
            1
        } else {
            0
        },
        ServiceFlow::VerifyingInstall => 1,
        _ => 0,
    }
}

/// An operation never runs in circles: a check of the service is followed by
/// at most one command, and an installation by at most one reinstallation.
pub proof fn law_operation_runs_few_commands(
    manager: ServiceManagerView,
    flow: ServiceFlow,
    events: Seq<ServiceEvent>,
)
    ensures
        commands_run(manager, flow, events) <= commands_left(flow),
    decreases events.len(),
{
    if events.len() > 0 {
        let next = manager.service_next(flow, events[0]);
        law_operation_runs_few_commands(next.0, next.1, events.drop_first());
    }
}

/// A probe that ends gives the service's status only after its endpoint was
/// there and its version matched: it asks for nothing out of turn.
pub proof fn law_probe_asks_in_order(
    manager: ServiceManagerView,
    flow: ProbeFlow,
    event: ProbeEvent,
)
    ensures
        manager.probe_next(flow, event).2 is QueryVersion ==> flow is CheckingEndpoint && event
            == ProbeEvent::Endpoint(true),
        manager.probe_next(flow, event).2 is QueryStatus ==> flow is QueryingVersion
            && event is Version,
        manager.probe_next(flow, event).2 matches ProbeAction::Finish(result) && result is Ok
            ==> flow is QueryingStatus && event is Status,
{
}

/// A request runs the command that it asks for: a reinstallation reinstalls,
/// an installation installs, and only a request to uninstall uninstalls. A
/// service that is ready, or is said not to be available, has no command run.
pub proof fn law_request_runs_its_command(manager: ServiceManagerView, status: ServiceStatus)
    ensures
        ({
            let next = manager.applied(status);
            &&& status is NeedsReinstall || status is ReinstallRequired ==> next.2
                == ServiceAction::RunCommand(ServiceCommand::Reinstall)
            &&& status is ForceReinstallRequired ==> next.2 == ServiceAction::RunCommand(
                ServiceCommand::ForceReinstall,
            )
            &&& status is InstallRequired ==> next.2 == ServiceAction::RunCommand(
                ServiceCommand::Install,
            )
            &&& status is UninstallRequired ==> next.2 == ServiceAction::RunCommand(
                ServiceCommand::Uninstall,
            )
            &&& status is Ready ==> next.2 is UpdateMenu
            &&& status matches ServiceStatus::Unavailable(reason) ==> next.2
                == ServiceAction::Finish(
                Err(CoreError::Plain(Message::ServiceUnavailable { reason })),
            )
            &&& next.2 == ServiceAction::RunCommand(ServiceCommand::Uninstall)
                <==> status is UninstallRequired
        }),
{
}

/// Whatever a request asks for, its status is recorded first; a command runs
/// under its own name, only a fresh installation is verified, and on Windows
/// anything but an uninstallation marks the service as one of another version.
pub proof fn law_request_is_recorded(manager: ServiceManagerView, status: ServiceStatus)
    ensures
        ({
            let next = manager.applied(status);
            &&& next.0.status == status@
            &&& next.0.platform == manager.platform
            &&& next.0.startup_maintenance_attempted == manager.startup_maintenance_attempted
            &&& next.0.upgrade_pending <==> manager.upgrade_pending || manager.platform is Windows
                && next.2 is RunCommand && !(status is UninstallRequired)
            &&& next.2 matches ServiceAction::RunCommand(command) ==> next.1
                == (ServiceFlow::RunningCommand { command, verify: status is InstallRequired })
                && next.0.operation_running == manager.operation_running
            &&& !(next.2 is RunCommand) ==> !next.0.operation_running
            &&& next.2 is UpdateMenu ==> next.1 is UpdatingMenu
            &&& next.2 is Finish ==> next.1 is Finished
        }),
{
}

/// The service is uninstalled for a request to uninstall it and for nothing
/// else: no step of any operation goes over to uninstalling it.
pub proof fn law_no_step_uninstalls(
    manager: ServiceManagerView,
    flow: ServiceFlow,
    event: ServiceEvent,
)
    ensures
        manager.service_next(flow, event).2 != ServiceAction::RunCommand(ServiceCommand::Uninstall),
        manager.service_next(flow, event).2 is RunCommand ==> manager.service_next(flow, event).2
            == ServiceAction::RunCommand(ServiceCommand::Reinstall),
{
}

/// A service of another version is reinstalled, and one of the bundled version
/// is left alone, both when it is checked and after an installation.
pub proof fn law_other_version_is_reinstalled(manager: ServiceManagerView, needed: bool)
    ensures
        ({
            let checked = manager.service_next(
                ServiceFlow::CheckingVersion,
                ServiceEvent::ReinstallNeeded(needed),
            );
            let verified = manager.service_next(
                ServiceFlow::VerifyingInstall,
                ServiceEvent::ReinstallNeeded(needed),
            );
            &&& checked.2 == verified.2
            &&& needed ==> checked.2 == ServiceAction::RunCommand(ServiceCommand::Reinstall)
            &&& !needed ==> checked.2 is UpdateMenu
            &&& checked.0.status == if needed {
                StatusView::NeedsReinstall
            } else {
                StatusView::Ready
            }
            &&& needed ==> verified.0.status == StatusView::NeedsReinstall
            &&& !needed ==> verified.0.status == manager.status
        }),
{
}

/// What an operation does, it does for a reason: for each thing that it asks
/// for, where it stood, what came in, and how it goes on.
pub proof fn law_operation_acts_for_a_reason(
    manager: ServiceManagerView,
    flow: ServiceFlow,
    event: ServiceEvent,
)
    ensures
        ({
            let next = manager.service_next(flow, event);
            &&& next.0.platform == manager.platform
            &&& next.0.startup_maintenance_attempted == manager.startup_maintenance_attempted
            &&& match next.2 {
                ServiceAction::QueryReinstallNeeded => {
                    &&& flow == ServiceFlow::WaitingForIpc { verify: true }
                    &&& event is IpcWaited && event->IpcWaited_0 is Ok
                    &&& next.1 is VerifyingInstall
                    &&& next.0 == ServiceManagerView { status: StatusView::Ready, ..manager }
                },
                ServiceAction::RunCommand(command) => {
                    &&& flow is CheckingVersion || flow is VerifyingInstall
                    &&& event == ServiceEvent::ReinstallNeeded(true)
                    &&& next.1 == ServiceFlow::RunningCommand { command, verify: false }
                    &&& next.0 == ServiceManagerView {
                        status: StatusView::NeedsReinstall,
                        upgrade_pending: manager.upgrade_pending || manager.platform is Windows,
                        ..manager
                    }
                },
                ServiceAction::WaitForServiceIpc => {
                    &&& flow matches ServiceFlow::RunningCommand { command, verify }
                    &&& !(command is Uninstall)
                    &&& event is CommandDone && event->CommandDone_0 is Ok
                    &&& next.1 == ServiceFlow::WaitingForIpc { verify }
                    &&& next.0 == manager
                },
                ServiceAction::UpdateMenu => {
                    &&& next.1 is UpdatingMenu
                    &&& next.0 == ServiceManagerView {
                        operation_running: false,
                        status: next.0.status,
                        ..manager
                    }
                    &&& match flow {
                        ServiceFlow::CheckingVersion => event == ServiceEvent::ReinstallNeeded(
                            false,
                        ) && next.0.status == StatusView::Ready,
                        ServiceFlow::VerifyingInstall => event == ServiceEvent::ReinstallNeeded(
                            false,
                        ) && next.0.status == manager.status,
                        ServiceFlow::RunningCommand { command, .. } => command is Uninstall
                            && event is CommandDone && event->CommandDone_0 is Ok && next.0.status
                            == StatusView::Unavailable("Service Uninstalled"@),
                        ServiceFlow::WaitingForIpc { verify } => !verify && event is IpcWaited
                            && event->IpcWaited_0 is Ok && next.0.status == StatusView::Ready,
                        _ => false,
                    }
                },
                ServiceAction::Finish(result) => {
                    &&& next.1 is Finished
                    &&& match (flow, event) {
                        (ServiceFlow::UpdatingMenu, ServiceEvent::MenuUpdated(updated)) => {
                            &&& next.0 == manager
                            &&& result is Ok <==> updated is Ok
                            &&& updated matches Err(failure) ==> result == Err::<(), CoreError>(
                                CoreError::Outside(failure),
                            )
                        },
                        (ServiceFlow::RunningCommand { .. }, ServiceEvent::CommandDone(done)) => {
                            &&& done is Err && result == done
                            &&& next.0 == ServiceManagerView { operation_running: false, ..manager }
                        },
                        (ServiceFlow::WaitingForIpc { .. }, ServiceEvent::IpcWaited(waited)) => {
                            &&& waited is Err && result == waited
                            &&& next.0 == ServiceManagerView {
                                operation_running: false,
                                status: StatusView::Unavailable(
                                    "Waiting for service to be available"@,
                                ),
                                ..manager
                            }
                        },
                        _ => false,
                    }
                },
                ServiceAction::Ignore => {
                    &&& next.0 == manager && next.1 == flow
                    &&& !((flow is CheckingVersion || flow is VerifyingInstall)
                        && event is ReinstallNeeded)
                    &&& !(flow is RunningCommand && event is CommandDone)
                    &&& !(flow is WaitingForIpc && event is IpcWaited)
                    &&& !(flow is UpdatingMenu && event is MenuUpdated)
                },
            }
        }),
{
}

/// What a probe of the service does, it does for a reason: for each thing that
/// it asks for, where it stood, what came in, and how it goes on.
pub proof fn law_probe_acts_for_a_reason(
    manager: ServiceManagerView,
    flow: ProbeFlow,
    event: ProbeEvent,
)
    ensures
        ({
            let next = manager.probe_next(flow, event);
            &&& next.0 == ServiceManagerView { upgrade_pending: next.0.upgrade_pending, ..manager }
            &&& match next.2 {
                ProbeAction::CheckEndpoint => false,
                ProbeAction::QueryVersion => {
                    &&& flow matches ProbeFlow::CheckingEndpoint { bundled }
                    &&& event == ProbeEvent::Endpoint(true)
                    &&& next.1 == ProbeFlow::QueryingVersion { bundled }
                    &&& next.0 == manager
                },
                ProbeAction::QueryStatus => {
                    &&& flow matches ProbeFlow::QueryingVersion { bundled }
                    &&& event matches ProbeEvent::Version(Ok(reply))
                    &&& reply.code <= 0 && reply.data is Some && reply.data->0@ == bundled@
                    &&& next.1 is QueryingStatus && next.0 == manager
                },
                ProbeAction::Finish(Ok(status)) => {
                    &&& flow is QueryingStatus && next.1 is Finished
                    &&& event matches ProbeEvent::Status(Ok(reply))
                    &&& reply.code <= 0 && reply.data == Some(status)
                    &&& !next.0.upgrade_pending
                },
                ProbeAction::Finish(Err(error)) => {
                    &&& next.1 is Finished
                    &&& match (flow, event) {
                        (ProbeFlow::CheckingEndpoint { .. }, ProbeEvent::Endpoint(present)) => {
                            &&& !present && next.0 == manager
                            &&& error == CoreError::Plain(Message::Note(Note::EndpointAbsent))
                        },
                        (ProbeFlow::QueryingVersion { .. }, ProbeEvent::Version(Err(failure))) => {
                            &&& next.0 == manager
                            &&& error == CoreError::Context(
                                Message::Note(Note::VersionUnreachable),
                                Box::new(CoreError::Outside(failure)),
                            )
                        },
                        (ProbeFlow::QueryingVersion { bundled }, ProbeEvent::Version(Ok(reply))) => {
                            if reply.code > 0 {
                                next.0 == manager && error == CoreError::Plain(
                                    Message::Reply { text: reply.message },
                                )
                            } else {
                                match reply.data {
                                    None => next.0 == manager && error == CoreError::Plain(
                                        Message::Note(Note::VersionMissing),
                                    ),
                                    Some(version) => version@ != bundled@ && next.0.upgrade_pending
                                        && error == CoreError::Plain(
                                        Message::VersionMismatch { version, bundled },
                                    ),
                                }
                            }
                        },
                        (ProbeFlow::QueryingStatus, ProbeEvent::Status(Err(failure))) => {
                            &&& next.0 == manager
                            &&& error == CoreError::Context(
                                Message::Note(Note::StatusUnreachable),
                                Box::new(CoreError::Outside(failure)),
                            )
                        },
                        (ProbeFlow::QueryingStatus, ProbeEvent::Status(Ok(reply))) => {
                            &&& next.0 == manager
                            &&& if reply.code > 0 {
                                error == CoreError::Plain(Message::Reply { text: reply.message })
                            } else {
                                reply.data is None && error == CoreError::Plain(
                                    Message::Note(Note::StatusMissing),
                                )
                            }
                        },
                        _ => false,
                    }
                },
                ProbeAction::Ignore => {
                    &&& next.0 == manager && next.1 == flow
                    &&& !(flow is CheckingEndpoint && event is Endpoint)
                    &&& !(flow is QueryingVersion && event is Version)
                    &&& !(flow is QueryingStatus && event is Status)
                },
            }
        }),
{
}

/// An operation keeps everything but what it changes: letting another in,
/// recording a status and marking a service of another version change just
/// that.
pub proof fn law_service_records_are_kept_apart(manager: ServiceManagerView, status: StatusView)
    ensures
        manager.admitted() == (ServiceManagerView { operation_running: true, ..manager }),
        manager.with_status(status) == (ServiceManagerView { status, ..manager }),
        manager.with_upgrade_latched() == (ServiceManagerView {
            upgrade_pending: manager.upgrade_pending || manager.platform is Windows,
            ..manager
        }),
{
}

/// A reply of the service is a success exactly where it came and its code is
/// not above zero; where data is owed, it must be there too, and it is handed
/// on as it is.
pub proof fn law_reply_is_read_as_it_is<T>(
    reply: Result<super::ipc::IpcResponse<T>, Failure>,
    unreachable: Note,
    missing: Note,
)
    ensures
        super::ipc::done_reply(reply, unreachable) is Ok <==> reply is Ok && reply->Ok_0.code <= 0,
        super::ipc::data_reply(reply, unreachable, missing) is Ok <==> reply is Ok
            && reply->Ok_0.code <= 0 && reply->Ok_0.data is Some,
        super::ipc::data_reply(reply, unreachable, missing) is Ok ==> reply->Ok_0.data == Some(
            super::ipc::data_reply(reply, unreachable, missing)->Ok_0,
        ),
        reply matches Err(failure) ==> {
            let told = CoreError::Context(
                Message::Note(unreachable),
                Box::new(CoreError::Outside(failure)),
            );
            &&& super::ipc::done_reply(reply, unreachable) == Err::<(), CoreError>(told)
            &&& super::ipc::data_reply(reply, unreachable, missing) == Err::<T, CoreError>(told)
        },
        reply is Ok && reply->Ok_0.code > 0 ==> {
            let told = CoreError::Plain(Message::Reply { text: reply->Ok_0.message });
            &&& super::ipc::done_reply(reply, unreachable) == Err::<(), CoreError>(told)
            &&& super::ipc::data_reply(reply, unreachable, missing) == Err::<T, CoreError>(told)
        },
        reply is Ok && reply->Ok_0.code <= 0 && reply->Ok_0.data is None
            ==> super::ipc::data_reply(reply, unreachable, missing) == Err::<T, CoreError>(
            CoreError::Plain(Message::Note(missing)),
        ),
{
}

/// The service is asked to start the core only once it has been checked and
/// brought up to date; what it says to that is the outcome.
pub proof fn law_core_is_run_after_a_refresh(
    refreshed: Result<(), CoreError>,
    started: Result<(), CoreError>,
)
    ensures
        ({
            let next = run_core_next(RunCoreFlow::Refreshing, refreshed);
            let end = run_core_next(next.0, started);
            &&& next.1 is Start <==> refreshed is Ok
            &&& refreshed matches Err(error) ==> next == (
                RunCoreFlow::Finished,
                RunCoreAction::Finish(Err(error)),
            )
            &&& refreshed is Ok ==> end == (RunCoreFlow::Finished, RunCoreAction::Finish(started))
        }),
        run_core_next(RunCoreFlow::Finished, refreshed) == (
            RunCoreFlow::Finished,
            RunCoreAction::Ignore,
        ),
{
}

/// A manager and a status are seen as they are.
pub proof fn law_service_is_seen_as_it_is(manager: super::status::ServiceManager, reason: String)
    ensures
        manager@.platform == manager.platform,
        manager@.status == manager.status@,
        manager@.operation_running == manager.operation_running,
        manager@.startup_maintenance_attempted == manager.startup_maintenance_attempted,
        manager@.upgrade_pending == manager.upgrade_pending,
        ServiceStatus::Ready@ is Ready,
        ServiceStatus::NeedsReinstall@ is NeedsReinstall,
        ServiceStatus::InstallRequired@ is InstallRequired,
        ServiceStatus::UninstallRequired@ is UninstallRequired,
        ServiceStatus::ReinstallRequired@ is ReinstallRequired,
        ServiceStatus::ForceReinstallRequired@ is ForceReinstallRequired,
        ServiceStatus::Unavailable(reason)@ == StatusView::Unavailable(reason@),
{
}

/// Each command goes by its own name in messages.
pub proof fn law_commands_go_by_name()
    ensures
        ServiceCommand::Install.label_wording() == "install service"@,
        ServiceCommand::Uninstall.label_wording() == "uninstall service"@,
        ServiceCommand::Reinstall.label_wording() == "reinstall service"@,
        ServiceCommand::ForceReinstall.label_wording() == "force reinstall service"@,
        ServiceCommand::StartInstalled.label_wording() == "start installed service"@,
{
}

} // verus!
