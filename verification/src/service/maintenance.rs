//! Getting an installed service to answer, once per run of the application, on
//! Windows.

use super::command::ServiceCommand;
use super::scm::WindowsScmServiceState;
use super::status::{
    mark_incompatible_service_upgrade_pending, ServiceManager, ServiceManagerView, StatusView,
};
use crate::clock::after;
use crate::error::{in_context, note_error, CoreError, Failure, Message, Note};
use vstd::prelude::*;

verus! {

/// How long the maintenance looks for the service, in milliseconds.
#[derive(Debug, Clone, Copy, PartialEq, Eq, Structural)]
pub struct MaintenanceTiming {
    pub window: u64,
    pub interval: u64,
}

/// Where the maintenance stands. It gives up at `deadline`; `started` is
/// whether a stopped service was told to start.
#[derive(Debug, Clone, Copy, PartialEq, Eq, Structural)]
pub enum MaintenanceFlow {
    /// The service's endpoint is being looked for.
    CheckingEndpoint { deadline: u64, started: bool },
    /// A connection to it is being made.
    Connecting { deadline: u64, started: bool },
    /// It was, and the service is being checked and brought up to date.
    Refreshing,
    /// It was not, and the Service Control Manager is being asked.
    QueryingScm { deadline: u64, started: bool },
    /// A stopped service is being started.
    StartingService { deadline: u64 },
    /// The clock is being read.
    ReadingClock { deadline: u64, started: bool },
    /// It is not time for another look yet.
    Pausing { deadline: u64, started: bool },
    Finished,
}

/// What comes back from outside.
#[derive(Debug)]
pub enum MaintenanceEvent {
    Endpoint(bool),
    Connected(Result<(), Failure>),
    Refreshed(Result<(), CoreError>),
    Scm(Result<WindowsScmServiceState, CoreError>),
    CommandDone(Result<(), CoreError>),
    Clock { now: u64 },
    Slept,
}

/// What to do next.
#[derive(Debug)]
pub enum MaintenanceAction {
    CheckEndpoint,
    Connect,
    Refresh,
    QueryScm,
    RunCommand(ServiceCommand),
    ReadClock,
    Sleep { interval: u64 },
    /// The maintenance is over. Where it succeeded, the ICS recovery target is
    /// to be brought up to date.
    Finish(Result<(), CoreError>),
    Ignore,
}

impl ServiceManagerView {
    /// The maintenance looks at the clock.
    pub open spec fn maintenance_looked(self, deadline: u64, started: bool) -> (
        Self,
        MaintenanceFlow,
        MaintenanceAction,
    ) {
        (
            self,
            MaintenanceFlow::ReadingClock { deadline, started },
            MaintenanceAction::ReadClock,
        )
    }

    /// The manager once a service of another version may be there.
    pub open spec fn with_upgrade_pending(self) -> Self {
        ServiceManagerView { upgrade_pending: true, ..self }
    }

    /// Where the maintenance goes from `flow` on `event`.
    pub open spec fn maintenance_next(
        self,
        timing: MaintenanceTiming,
        flow: MaintenanceFlow,
        event: MaintenanceEvent,
    ) -> (Self, MaintenanceFlow, MaintenanceAction) {
        match (flow, event) {
            (
                MaintenanceFlow::CheckingEndpoint { deadline, started },
                MaintenanceEvent::Endpoint(present),
            ) => if present {
                (
                    self,
                    MaintenanceFlow::Connecting { deadline, started },
                    MaintenanceAction::Connect,
                )
            } else {
                (
                    self,
                    MaintenanceFlow::QueryingScm { deadline, started },
                    MaintenanceAction::QueryScm,
                )
            },
            (
                MaintenanceFlow::Connecting { deadline, started },
                MaintenanceEvent::Connected(connected),
            ) => match connected {
                Ok(()) => (self, MaintenanceFlow::Refreshing, MaintenanceAction::Refresh),
                Err(_) => (
                    self.with_status(StatusView::Unavailable("服务连接失败: {e}"@)),
                    MaintenanceFlow::QueryingScm { deadline, started },
                    MaintenanceAction::QueryScm,
                ),
            },
            (MaintenanceFlow::Refreshing, MaintenanceEvent::Refreshed(refreshed)) => (
                self,
                MaintenanceFlow::Finished,
                MaintenanceAction::Finish(refreshed),
            ),
            (
                MaintenanceFlow::QueryingScm { deadline, started },
                MaintenanceEvent::Scm(scm),
            ) => match scm {
                Ok(WindowsScmServiceState::Absent) => self.maintenance_looked(deadline, started),
                Ok(WindowsScmServiceState::Active) => {
                    self.with_upgrade_pending().maintenance_looked(deadline, started)
                },
                Ok(WindowsScmServiceState::Stopped) => if started {
                    self.with_upgrade_pending().maintenance_looked(deadline, started)
                } else {
                    (
                        self.with_upgrade_pending(),
                        MaintenanceFlow::StartingService { deadline },
                        MaintenanceAction::RunCommand(ServiceCommand::StartInstalled),
                    )
                },
                Err(error) => (
                    self.with_upgrade_pending(),
                    MaintenanceFlow::Finished,
                    MaintenanceAction::Finish(Err(error.within(Note::ScmUndetermined))),
                ),
            },
            (
                MaintenanceFlow::StartingService { deadline },
                MaintenanceEvent::CommandDone(done),
            ) => match done {
                Ok(()) => self.maintenance_looked(deadline, true),
                Err(error) => (
                    self,
                    MaintenanceFlow::Finished,
                    MaintenanceAction::Finish(Err(error)),
                ),
            },
            (
                MaintenanceFlow::ReadingClock { deadline, started },
                MaintenanceEvent::Clock { now },
            ) => if now >= deadline {
                (
                    self,
                    MaintenanceFlow::Finished,
                    MaintenanceAction::Finish(Err(CoreError::of(Note::MaintenanceTimedOut))),
                )
            } else {
                (
                    self,
                    MaintenanceFlow::Pausing { deadline, started },
                    MaintenanceAction::Sleep { interval: timing.interval },
                )
            },
            (MaintenanceFlow::Pausing { deadline, started }, MaintenanceEvent::Slept) => (
                self,
                MaintenanceFlow::CheckingEndpoint { deadline, started },
                MaintenanceAction::CheckEndpoint,
            ),
            (flow, _) => (self, flow, MaintenanceAction::Ignore),
        }
    }
}

/// Begins the maintenance of the service, unless it was begun before.
pub fn schedule_startup_service_maintenance(
    manager: &mut ServiceManager,
    timing: &MaintenanceTiming,
    now: u64,
) -> (r: Option<(MaintenanceFlow, MaintenanceAction)>)
    ensures
        final(manager)@ == (ServiceManagerView {
            startup_maintenance_attempted: true,
            ..old(manager)@
        }),
        r == (if old(manager).startup_maintenance_attempted {
            None
        } else {
            Some(
                (
                    (MaintenanceFlow::CheckingEndpoint {
                        deadline: crate::clock::moment_after(now, timing.window),
                        started: false,
                    }),
                    MaintenanceAction::CheckEndpoint,
                ),
            )
        }),
{
    if manager.startup_maintenance_attempted {
        return None;
    }
    manager.startup_maintenance_attempted = true;
    Some(
        (
            MaintenanceFlow::CheckingEndpoint {
                deadline: after(now, timing.window),
                started: false,
            },
            MaintenanceAction::CheckEndpoint,
        ),
    )
}

impl ServiceManager {
    /// Takes the maintenance one event further.
    pub fn maintenance_step(
        &mut self,
        timing: &MaintenanceTiming,
        flow: MaintenanceFlow,
        event: MaintenanceEvent,
    ) -> (r: (MaintenanceFlow, MaintenanceAction))
        ensures
            (final(self)@, r.0, r.1) == old(self)@.maintenance_next(*timing, flow, event),
    {
        match (flow, event) {
            (
                MaintenanceFlow::CheckingEndpoint { deadline, started },
                MaintenanceEvent::Endpoint(present),
            ) => if present {
                (MaintenanceFlow::Connecting { deadline, started }, MaintenanceAction::Connect)
            } else {
                (MaintenanceFlow::QueryingScm { deadline, started }, MaintenanceAction::QueryScm)
            },
            (
                MaintenanceFlow::Connecting { deadline, started },
                MaintenanceEvent::Connected(connected),
            ) => match self.init(connected) {
                Ok(()) => (MaintenanceFlow::Refreshing, MaintenanceAction::Refresh),
                Err(_) => (
                    MaintenanceFlow::QueryingScm { deadline, started },
                    MaintenanceAction::QueryScm,
                ),
            },
            (MaintenanceFlow::Refreshing, MaintenanceEvent::Refreshed(refreshed)) => (
                MaintenanceFlow::Finished,
                MaintenanceAction::Finish(refreshed),
            ),
            (
                MaintenanceFlow::QueryingScm { deadline, started },
                MaintenanceEvent::Scm(scm),
            ) => match scm {
                Ok(WindowsScmServiceState::Absent) => (
                    MaintenanceFlow::ReadingClock { deadline, started },
                    MaintenanceAction::ReadClock,
                ),
                Ok(WindowsScmServiceState::Active) => {
                    mark_incompatible_service_upgrade_pending(self);
                    (
                        MaintenanceFlow::ReadingClock { deadline, started },
                        MaintenanceAction::ReadClock,
                    )
                },
                Ok(WindowsScmServiceState::Stopped) => {
                    mark_incompatible_service_upgrade_pending(self);
                    if started {
                        (
                            MaintenanceFlow::ReadingClock { deadline, started },
                            MaintenanceAction::ReadClock,
                        )
                    } else {
                        (
                            MaintenanceFlow::StartingService { deadline },
                            MaintenanceAction::RunCommand(ServiceCommand::StartInstalled),
                        )
                    }
                },
                Err(error) => {
                    mark_incompatible_service_upgrade_pending(self);
                    (
                        MaintenanceFlow::Finished,
                        MaintenanceAction::Finish(Err(in_context(error, Note::ScmUndetermined))),
                    )
                },
            },
            (
                MaintenanceFlow::StartingService { deadline },
                MaintenanceEvent::CommandDone(done),
            ) => match done {
                Ok(()) => (
                    MaintenanceFlow::ReadingClock { deadline, started: true },
                    MaintenanceAction::ReadClock,
                ),
                Err(error) => (MaintenanceFlow::Finished, MaintenanceAction::Finish(Err(error))),
            },
            (
                MaintenanceFlow::ReadingClock { deadline, started },
                MaintenanceEvent::Clock { now },
            ) => if now >= deadline {
                (
                    MaintenanceFlow::Finished,
                    MaintenanceAction::Finish(Err(note_error(Note::MaintenanceTimedOut))),
                )
            } else {
                (
                    MaintenanceFlow::Pausing { deadline, started },
                    MaintenanceAction::Sleep { interval: timing.interval },
                )
            },
            (MaintenanceFlow::Pausing { deadline, started }, MaintenanceEvent::Slept) => (
                MaintenanceFlow::CheckingEndpoint { deadline, started },
                MaintenanceAction::CheckEndpoint,
            ),
            (flow, _) => (flow, MaintenanceAction::Ignore),
        }
    }
}

/// How many commands the maintenance runs while `events` come in.
pub open spec fn maintenance_commands(
    manager: ServiceManagerView,
    timing: MaintenanceTiming,
    flow: MaintenanceFlow,
    events: Seq<MaintenanceEvent>,
) -> nat
    decreases events.len(),
{
    if events.len() == 0 {
        0
    } else {
        let next = manager.maintenance_next(timing, flow, events[0]);
        (if next.2 is RunCommand {
            1nat
        } else {
            0nat
        }) + maintenance_commands(next.0, timing, next.1, events.drop_first())
    }
}

/// Whether the maintenance, standing at `flow`, may still run a command.
pub open spec fn may_command(flow: MaintenanceFlow) -> bool {
    match flow {
        MaintenanceFlow::CheckingEndpoint { started, .. } => !started,
        MaintenanceFlow::Connecting { started, .. } => !started,
        MaintenanceFlow::QueryingScm { started, .. } => !started,
        MaintenanceFlow::ReadingClock { started, .. } => !started,
        MaintenanceFlow::Pausing { started, .. } => !started,
        _ => false,
    }
}

/// However long the service does not answer, the maintenance asks the user for
/// rights at most once: it runs at most one command.
pub proof fn law_maintenance_runs_at_most_one_command(
    manager: ServiceManagerView,
    timing: MaintenanceTiming,
    flow: MaintenanceFlow,
    events: Seq<MaintenanceEvent>,
)
    ensures
        maintenance_commands(manager, timing, flow, events) <= 1,
        !may_command(flow) ==> maintenance_commands(manager, timing, flow, events) == 0,
    decreases events.len(),
{
    if events.len() > 0 {
        let next = manager.maintenance_next(timing, flow, events[0]);
        law_maintenance_runs_at_most_one_command(next.0, timing, next.1, events.drop_first());
    }
}

/// The maintenance never clears the mark of a service of another version, and
/// a service that is installed but does not answer sets it.
pub proof fn law_maintenance_keeps_the_upgrade_mark(
    manager: ServiceManagerView,
    timing: MaintenanceTiming,
    flow: MaintenanceFlow,
    event: MaintenanceEvent,
)
    ensures
        manager.upgrade_pending ==> manager.maintenance_next(timing, flow, event).0.upgrade_pending,
        flow is QueryingScm && event is Scm && !(event->Scm_0 == Ok::<
            WindowsScmServiceState,
            CoreError,
        >(WindowsScmServiceState::Absent)) ==> manager.maintenance_next(
            timing,
            flow,
            event,
        ).0.upgrade_pending,
{
}

/// A service that is installed but stopped is told to start, once; nothing
/// else is ever done to a service in the course of the maintenance.
pub proof fn law_maintenance_only_starts_a_stopped_service(
    manager: ServiceManagerView,
    timing: MaintenanceTiming,
    flow: MaintenanceFlow,
    event: MaintenanceEvent,
)
    ensures
        ({
            let next = manager.maintenance_next(timing, flow, event);
            &&& next.2 matches MaintenanceAction::RunCommand(command) ==> command is StartInstalled
            &&& next.2 is RunCommand <==> flow is QueryingScm && !flow->QueryingScm_started && event
                == MaintenanceEvent::Scm(Ok(WindowsScmServiceState::Stopped))
        }),
{
}

/// What the maintenance does, it does for a reason: for each thing that it asks
/// for, where it stood, what came in, and how it goes on.
pub proof fn law_maintenance_acts_for_a_reason(
    manager: ServiceManagerView,
    timing: MaintenanceTiming,
    flow: MaintenanceFlow,
    event: MaintenanceEvent,
)
    ensures
        ({
            let next = manager.maintenance_next(timing, flow, event);
            &&& next.0 == ServiceManagerView {
                status: if flow is Connecting && event is Connected
                    && event->Connected_0 is Err {
                    StatusView::Unavailable("服务连接失败: {e}"@)
                } else {
                    manager.status
                },
                upgrade_pending: manager.upgrade_pending || flow is QueryingScm && event is Scm
                    && !(event->Scm_0 is Ok && event->Scm_0->Ok_0 is Absent),
                ..manager
            }
            &&& match next.2 {
                MaintenanceAction::CheckEndpoint => {
                    &&& flow matches MaintenanceFlow::Pausing { deadline, started }
                    &&& event is Slept
                    &&& next.1 == MaintenanceFlow::CheckingEndpoint { deadline, started }
                },
                MaintenanceAction::Connect => {
                    &&& flow matches MaintenanceFlow::CheckingEndpoint { deadline, started }
                    &&& event == MaintenanceEvent::Endpoint(true)
                    &&& next.1 == MaintenanceFlow::Connecting { deadline, started }
                },
                MaintenanceAction::Refresh => {
                    &&& flow is Connecting && event is Connected && event->Connected_0 is Ok
                    &&& next.1 is Refreshing
                },
                MaintenanceAction::QueryScm => match flow {
                    MaintenanceFlow::CheckingEndpoint { deadline, started } => event
                        == MaintenanceEvent::Endpoint(false) && next.1
                        == (MaintenanceFlow::QueryingScm { deadline, started }),
                    MaintenanceFlow::Connecting { deadline, started } => event is Connected
                        && event->Connected_0 is Err && next.1 == (MaintenanceFlow::QueryingScm {
                        deadline,
                        started,
                    }),
                    _ => false,
                },
                MaintenanceAction::RunCommand(_) => {
                    &&& flow matches MaintenanceFlow::QueryingScm { deadline, started: false }
                    &&& next.1 == MaintenanceFlow::StartingService { deadline }
                },
                MaintenanceAction::ReadClock => match flow {
                    MaintenanceFlow::QueryingScm { deadline, started } => {
                        &&& event matches MaintenanceEvent::Scm(Ok(state))
                        &&& started || !(state is Stopped)
                        &&& next.1 == MaintenanceFlow::ReadingClock { deadline, started }
                    },
                    MaintenanceFlow::StartingService { deadline } => event is CommandDone
                        && event->CommandDone_0 is Ok && next.1 == (MaintenanceFlow::ReadingClock {
                        deadline,
                        started: true,
                    }),
                    _ => false,
                },
                MaintenanceAction::Sleep { interval } => {
                    &&& flow matches MaintenanceFlow::ReadingClock { deadline, started }
                    &&& event matches MaintenanceEvent::Clock { now }
                    &&& now < deadline && interval == timing.interval
                    &&& next.1 == MaintenanceFlow::Pausing { deadline, started }
                },
                MaintenanceAction::Finish(result) => {
                    &&& next.1 is Finished
                    &&& match flow {
                        MaintenanceFlow::Refreshing => event == MaintenanceEvent::Refreshed(result),
                        MaintenanceFlow::QueryingScm { .. } => {
                            &&& event matches MaintenanceEvent::Scm(Err(error))
                            &&& result == Err::<(), CoreError>(
                                CoreError::Context(
                                    Message::Note(Note::ScmUndetermined),
                                    Box::new(error),
                                ),
                            )
                        },
                        MaintenanceFlow::StartingService { .. } => event
                            == MaintenanceEvent::CommandDone(result) && result is Err,
                        MaintenanceFlow::ReadingClock { deadline, .. } => {
                            &&& event matches MaintenanceEvent::Clock { now }
                            &&& now >= deadline
                            &&& result == Err::<(), CoreError>(
                                CoreError::Plain(Message::Note(Note::MaintenanceTimedOut)),
                            )
                        },
                        _ => false,
                    }
                },
                MaintenanceAction::Ignore => {
                    &&& next.1 == flow
                    &&& !(flow is CheckingEndpoint && event is Endpoint)
                    &&& !(flow is Connecting && event is Connected)
                    &&& !(flow is Refreshing && event is Refreshed)
                    &&& !(flow is QueryingScm && event is Scm)
                    &&& !(flow is StartingService && event is CommandDone)
                    &&& !(flow is ReadingClock && event is Clock)
                    &&& !(flow is Pausing && event is Slept)
                },
            }
        }),
{
}

} // verus!
