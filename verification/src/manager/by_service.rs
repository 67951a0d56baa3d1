//! Running the core through the service.

use super::{CoreManager, RunningMode};
use crate::error::{note_error, CoreError, Message, Note};
use crate::platform::Platform;
use crate::service::ics::WindowsIcsRecoveryTransaction;
use vstd::prelude::*;

verus! {

/// How often the service is asked to start the core, and how long is waited
/// in between, in milliseconds.
#[derive(Debug, Clone, Copy, PartialEq, Eq, Structural)]
pub struct RetryTiming {
    pub retries: u32,
    pub delay: u64,
}

/// Where a start through the service stands. `attempt` counts the attempts
/// before this one; `snapshot` is the recovery target to return to, once it
/// has been read.
#[derive(Debug)]
pub enum ServiceStartFlow {
    /// The Run file is being written.
    Writing,
    /// The recovery target is being read.
    Snapshotting { attempt: u32 },
    /// The recovery target is being set.
    Configuring { attempt: u32, snapshot: WindowsIcsRecoveryTransaction },
    /// The service is being asked to start the core.
    Running { attempt: u32, snapshot: WindowsIcsRecoveryTransaction },
    /// It gave `error`, and is being asked whether the core runs all the same.
    Confirming { attempt: u32, snapshot: WindowsIcsRecoveryTransaction, error: CoreError },
    /// It is not time for attempt `attempt` yet.
    Pausing { attempt: u32, snapshot: Option<WindowsIcsRecoveryTransaction> },
    /// No attempt is left, and the recovery target is being put back.
    Restoring { error: CoreError },
    /// Elsewhere than on Windows, the service is being asked to start the core.
    RunningOnce,
    Finished,
}

/// What comes back from outside.
#[derive(Debug)]
pub enum ServiceStartEvent {
    RunFileWritten(Result<(), CoreError>),
    Snapshotted(Result<WindowsIcsRecoveryTransaction, CoreError>),
    Configured(Result<(), CoreError>),
    Ran(Result<(), CoreError>),
    ServiceCore(Result<bool, CoreError>),
    Slept,
    Restored(Result<(), CoreError>),
}

/// What to do next.
#[derive(Debug)]
pub enum ServiceStartAction {
    WriteRunFile,
    SnapshotIcs,
    ConfigureIcs,
    RunCore,
    QueryServiceCore,
    Sleep { delay: u64 },
    RestoreIcs(WindowsIcsRecoveryTransaction),
    /// The start is over; `schedule_ics` is whether the service is to bring
    /// the recovery target up to date.
    Finish { result: Result<(), CoreError>, schedule_ics: bool },
    Ignore,
}

/// How an attempt begins: the recovery target is read, if that has not been
/// done, and then set.
pub open spec fn attempt_begun(attempt: u32, snapshot: Option<WindowsIcsRecoveryTransaction>) -> (
    ServiceStartFlow,
    ServiceStartAction,
) {
    match snapshot {
        None => (ServiceStartFlow::Snapshotting { attempt }, ServiceStartAction::SnapshotIcs),
        Some(snapshot) => (
            ServiceStartFlow::Configuring { attempt, snapshot },
            ServiceStartAction::ConfigureIcs,
        ),
    }
}

/// What follows when no attempt is left: the recovery target is put back, if
/// it had been read.
pub open spec fn attempts_exhausted(
    snapshot: Option<WindowsIcsRecoveryTransaction>,
    error: CoreError,
) -> (ServiceStartFlow, ServiceStartAction) {
    match snapshot {
        Some(snapshot) => (
            ServiceStartFlow::Restoring { error },
            ServiceStartAction::RestoreIcs(snapshot),
        ),
        None => (
            ServiceStartFlow::Finished,
            ServiceStartAction::Finish { result: Err(error), schedule_ics: false },
        ),
    }
}

/// What follows an attempt that failed with `error`.
pub open spec fn attempt_failed(
    timing: RetryTiming,
    attempt: u32,
    snapshot: Option<WindowsIcsRecoveryTransaction>,
    error: CoreError,
) -> (ServiceStartFlow, ServiceStartAction) {
    if attempt + 1 < timing.retries {
        (
            ServiceStartFlow::Pausing { attempt: (attempt + 1) as u32, snapshot },
            ServiceStartAction::Sleep { delay: timing.delay },
        )
    } else {
        attempts_exhausted(snapshot, error)
    }
}

fn begin_attempt(attempt: u32, snapshot: Option<WindowsIcsRecoveryTransaction>) -> (r: (
    ServiceStartFlow,
    ServiceStartAction,
))
    ensures
        r == attempt_begun(attempt, snapshot),
{
    match snapshot {
        None => (ServiceStartFlow::Snapshotting { attempt }, ServiceStartAction::SnapshotIcs),
        Some(snapshot) => (
            ServiceStartFlow::Configuring { attempt, snapshot },
            ServiceStartAction::ConfigureIcs,
        ),
    }
}

fn exhaust_attempts(snapshot: Option<WindowsIcsRecoveryTransaction>, error: CoreError) -> (r: (
    ServiceStartFlow,
    ServiceStartAction,
))
    ensures
        r == attempts_exhausted(snapshot, error),
{
    match snapshot {
        Some(snapshot) => (
            ServiceStartFlow::Restoring { error },
            ServiceStartAction::RestoreIcs(snapshot),
        ),
        None => (
            ServiceStartFlow::Finished,
            ServiceStartAction::Finish { result: Err(error), schedule_ics: false },
        ),
    }
}

fn fail_attempt(
    timing: &RetryTiming,
    attempt: u32,
    snapshot: Option<WindowsIcsRecoveryTransaction>,
    error: CoreError,
) -> (r: (ServiceStartFlow, ServiceStartAction))
    ensures
        r == attempt_failed(*timing, attempt, snapshot, error),
{
    if timing.retries > 0 && attempt < timing.retries - 1 {
        (
            ServiceStartFlow::Pausing { attempt: attempt + 1, snapshot },
            ServiceStartAction::Sleep { delay: timing.delay },
        )
    } else {
        exhaust_attempts(snapshot, error)
    }
}

impl CoreManager {
    /// The service runs the core.
    pub open spec fn service_started(self) -> (Self, ServiceStartFlow, ServiceStartAction) {
        (
            self.in_mode(RunningMode::Service),
            ServiceStartFlow::Finished,
            ServiceStartAction::Finish { result: Ok(()), schedule_ics: self.platform is Windows },
        )
    }

    /// Where a start through the service goes from `flow` on `event`.
    pub open spec fn service_start_next(
        self,
        timing: RetryTiming,
        flow: ServiceStartFlow,
        event: ServiceStartEvent,
    ) -> (Self, ServiceStartFlow, ServiceStartAction) {
        match (flow, event) {
            (ServiceStartFlow::Writing, ServiceStartEvent::RunFileWritten(written)) => {
                match written {
                    Err(error) => (
                        self,
                        ServiceStartFlow::Finished,
                        ServiceStartAction::Finish { result: Err(error), schedule_ics: false },
                    ),
                    Ok(()) => if !(self.platform is Windows) {
                        (self, ServiceStartFlow::RunningOnce, ServiceStartAction::RunCore)
                    } else if timing.retries == 0 {
                        (
                            self,
                            ServiceStartFlow::Finished,
                            ServiceStartAction::Finish {
                                result: Err(CoreError::of(Note::ServiceStartFailed)),
                                schedule_ics: false,
                            },
                        )
                    } else {
                        let begun = attempt_begun(0, None);
                        (self, begun.0, begun.1)
                    },
                }
            },
            (
                ServiceStartFlow::Snapshotting { attempt },
                ServiceStartEvent::Snapshotted(snapshotted),
            ) => match snapshotted {
                Ok(snapshot) => (
                    self,
                    ServiceStartFlow::Configuring { attempt, snapshot },
                    ServiceStartAction::ConfigureIcs,
                ),
                Err(error) => {
                    let failed = attempt_failed(timing, attempt, None, error);
                    (self, failed.0, failed.1)
                },
            },
            (
                ServiceStartFlow::Configuring { attempt, snapshot },
                ServiceStartEvent::Configured(configured),
            ) => match configured {
                Ok(()) => (
                    self,
                    ServiceStartFlow::Running { attempt, snapshot },
                    ServiceStartAction::RunCore,
                ),
                Err(error) => {
                    let failed = attempt_failed(timing, attempt, Some(snapshot), error);
                    (self, failed.0, failed.1)
                },
            },
            (
                ServiceStartFlow::Running { attempt, snapshot },
                ServiceStartEvent::Ran(ran),
            ) => match ran {
                Ok(()) => self.service_started(),
                Err(error) => (
                    self,
                    ServiceStartFlow::Confirming { attempt, snapshot, error },
                    ServiceStartAction::QueryServiceCore,
                ),
            },
            (
                ServiceStartFlow::Confirming { attempt, snapshot, error },
                ServiceStartEvent::ServiceCore(running),
            ) => if running == Ok::<bool, CoreError>(true) {
                self.service_started()
            } else {
                let failed = attempt_failed(timing, attempt, Some(snapshot), error);
                (self, failed.0, failed.1)
            },
            (ServiceStartFlow::Pausing { attempt, snapshot }, ServiceStartEvent::Slept) => {
                let begun = attempt_begun(attempt, snapshot);
                (self, begun.0, begun.1)
            },
            (ServiceStartFlow::Restoring { error }, ServiceStartEvent::Restored(restored)) => (
                self,
                ServiceStartFlow::Finished,
                ServiceStartAction::Finish {
                    result: Err(
                        match restored {
                            Ok(()) => error,
                            Err(reason) => CoreError::Context(
                                Message::IcsRestoreAfterRetries { reason: Box::new(reason) },
                                Box::new(error),
                            ),
                        },
                    ),
                    schedule_ics: false,
                },
            ),
            (ServiceStartFlow::RunningOnce, ServiceStartEvent::Ran(ran)) => match ran {
                Ok(()) => self.service_started(),
                Err(error) => (
                    self,
                    ServiceStartFlow::Finished,
                    ServiceStartAction::Finish { result: Err(error), schedule_ics: false },
                ),
            },
            (flow, _) => (self, flow, ServiceStartAction::Ignore),
        }
    }

    /// Begins a start through the service.
    pub fn start_core_by_service(&self) -> (r: (ServiceStartFlow, ServiceStartAction))
        ensures
            r == (ServiceStartFlow::Writing, ServiceStartAction::WriteRunFile),
    {
        (ServiceStartFlow::Writing, ServiceStartAction::WriteRunFile)
    }

    fn note_service_start(&mut self) -> (r: (ServiceStartFlow, ServiceStartAction))
        ensures
            (*final(self), r.0, r.1) == old(self).service_started(),
    {
        self.set_running_mode(RunningMode::Service);
        let schedule_ics = match self.platform {
            Platform::Windows => true,
            _ => false,
        };
        (
            ServiceStartFlow::Finished,
            ServiceStartAction::Finish { result: Ok(()), schedule_ics },
        )
    }

    /// Takes a start through the service one event further.
    pub fn service_start_step(
        &mut self,
        timing: &RetryTiming,
        flow: ServiceStartFlow,
        event: ServiceStartEvent,
    ) -> (r: (ServiceStartFlow, ServiceStartAction))
        ensures
            (*final(self), r.0, r.1) == old(self).service_start_next(*timing, flow, event),
    {
        match (flow, event) {
            (ServiceStartFlow::Writing, ServiceStartEvent::RunFileWritten(written)) => {
                match written {
                    Err(error) => (
                        ServiceStartFlow::Finished,
                        ServiceStartAction::Finish { result: Err(error), schedule_ics: false },
                    ),
                    Ok(()) => match self.platform {
                        Platform::Windows => if timing.retries == 0 {
                            exhaust_attempts(None, note_error(Note::ServiceStartFailed))
                        } else {
                            begin_attempt(0, None)
                        },
                        _ => (ServiceStartFlow::RunningOnce, ServiceStartAction::RunCore),
                    },
                }
            },
            (
                ServiceStartFlow::Snapshotting { attempt },
                ServiceStartEvent::Snapshotted(snapshotted),
            ) => match snapshotted {
                Ok(snapshot) => begin_attempt(attempt, Some(snapshot)),
                Err(error) => fail_attempt(timing, attempt, None, error),
            },
            (
                ServiceStartFlow::Configuring { attempt, snapshot },
                ServiceStartEvent::Configured(configured),
            ) => match configured {
                Ok(()) => (
                    ServiceStartFlow::Running { attempt, snapshot },
                    ServiceStartAction::RunCore,
                ),
                Err(error) => fail_attempt(timing, attempt, Some(snapshot), error),
            },
            (
                ServiceStartFlow::Running { attempt, snapshot },
                ServiceStartEvent::Ran(ran),
            ) => match ran {
                Ok(()) => self.note_service_start(),
                Err(error) => (
                    ServiceStartFlow::Confirming { attempt, snapshot, error },
                    ServiceStartAction::QueryServiceCore,
                ),
            },
            (
                ServiceStartFlow::Confirming { attempt, snapshot, error },
                ServiceStartEvent::ServiceCore(running),
            ) => match running {
                Ok(true) => self.note_service_start(),
                _ => fail_attempt(timing, attempt, Some(snapshot), error),
            },
            (ServiceStartFlow::Pausing { attempt, snapshot }, ServiceStartEvent::Slept) => {
                begin_attempt(attempt, snapshot)
            },
            (ServiceStartFlow::Restoring { error }, ServiceStartEvent::Restored(restored)) => {
                let error = match restored {
                    Ok(()) => error,
                    Err(reason) => CoreError::Context(
                        Message::IcsRestoreAfterRetries { reason: Box::new(reason) },
                        Box::new(error),
                    ),
                };
                (
                    ServiceStartFlow::Finished,
                    ServiceStartAction::Finish { result: Err(error), schedule_ics: false },
                )
            },
            (ServiceStartFlow::RunningOnce, ServiceStartEvent::Ran(ran)) => match ran {
                Ok(()) => self.note_service_start(),
                Err(error) => (
                    ServiceStartFlow::Finished,
                    ServiceStartAction::Finish { result: Err(error), schedule_ics: false },
                ),
            },
            (flow, _) => (flow, ServiceStartAction::Ignore),
        }
    }

    /// Takes in how stopping the core through the service went. No core counts
    /// as running after that, whatever the service said.
    pub fn stop_core_by_service(&mut self, stopped: Result<(), CoreError>) -> (r: Result<
        (),
        CoreError,
    >)
        ensures
            r == stopped,
            *final(self) == old(self).in_mode(RunningMode::NotRunning),
    {
        self.set_running_mode(RunningMode::NotRunning);
        stopped
    }
}

/// How many times the service is asked to start the core while `events` come
/// in.
pub open spec fn cores_run(
    manager: CoreManager,
    timing: RetryTiming,
    flow: ServiceStartFlow,
    events: Seq<ServiceStartEvent>,
) -> nat
    decreases events.len(),
{
    if events.len() == 0 {
        0
    } else {
        let next = manager.service_start_next(timing, flow, events[0]);
        (if next.2 is RunCore {
            1nat
        } else {
            0nat
        }) + cores_run(next.0, timing, next.1, events.drop_first())
    }
}

/// How many times a start that stands at `flow` can still ask the service to
/// start the core, on Windows.
pub open spec fn attempts_left(timing: RetryTiming, flow: ServiceStartFlow) -> int {
    let retries = timing.retries as int;
    match flow {
        ServiceStartFlow::Writing => retries,
        ServiceStartFlow::Snapshotting { attempt } => if attempt < retries {
            retries - attempt
        } else {
            1
        },
        ServiceStartFlow::Configuring { attempt, .. } => if attempt < retries {
            retries - attempt
        } else {
            1
        },
        ServiceStartFlow::Pausing { attempt, .. } => if attempt < retries {
            retries - attempt
        } else {
            1
        },
        ServiceStartFlow::Running { attempt, .. } => if attempt < retries {
            retries - attempt - 1
        } else {
            0
        },
        ServiceStartFlow::Confirming { attempt, .. } => if attempt < retries {
            retries - attempt - 1
        } else {
            0
        },
        _ => 0,
    }
}

/// On Windows the service is asked to start the core no more often than the
/// number of retries allows.
pub proof fn law_retries_bound_the_attempts(
    manager: CoreManager,
    timing: RetryTiming,
    flow: ServiceStartFlow,
    events: Seq<ServiceStartEvent>,
)
    requires
        manager.platform is Windows,
    ensures
        cores_run(manager, timing, flow, events) <= attempts_left(timing, flow),
        flow is Writing ==> cores_run(manager, timing, flow, events) <= timing.retries,
    decreases events.len(),
{
    if events.len() > 0 {
        let next = manager.service_start_next(timing, flow, events[0]);
        law_retries_bound_the_attempts(next.0, timing, next.1, events.drop_first());
    }
}

/// The service is asked to start the core only once the recovery target has
/// been read and set.
pub proof fn law_target_is_set_before_the_core_runs(
    manager: CoreManager,
    timing: RetryTiming,
    flow: ServiceStartFlow,
    event: ServiceStartEvent,
)
    requires
        manager.platform is Windows,
        manager.service_start_next(timing, flow, event).2 is RunCore,
    ensures
        flow is Configuring,
        event is Configured,
        event->Configured_0 is Ok,
{
}

/// A start through the service that fails leaves the mode alone, and one that
/// succeeds ends in service mode.
pub proof fn law_service_start_sets_the_mode_on_success_only(
    manager: CoreManager,
    timing: RetryTiming,
    flow: ServiceStartFlow,
    event: ServiceStartEvent,
)
    ensures
        ({
            let next = manager.service_start_next(timing, flow, event);
            next.2 matches ServiceStartAction::Finish { result, schedule_ics } ==> {
                &&& result is Ok ==> next.0 == manager.in_mode(RunningMode::Service)
                &&& result is Err ==> next.0 == manager && !schedule_ics
            }
        }),
        !(manager.service_start_next(timing, flow, event).2 is Finish)
            ==> manager.service_start_next(timing, flow, event).0 == manager,
{
}

/// The recovery target that a start through the service returns to, where it
/// has been read.
pub open spec fn target_read(flow: ServiceStartFlow) -> Option<WindowsIcsRecoveryTransaction> {
    match flow {
        ServiceStartFlow::Configuring { snapshot, .. } => Some(snapshot),
        ServiceStartFlow::Running { snapshot, .. } => Some(snapshot),
        ServiceStartFlow::Confirming { snapshot, .. } => Some(snapshot),
        ServiceStartFlow::Pausing { snapshot, .. } => snapshot,
        _ => None,
    }
}

/// A start through the service that gives up after the recovery target has
/// been read puts the target back: it does not fail before that was tried, and
/// until it succeeds or tries that, it keeps what it read. It tries that once
/// no attempt is left.
pub proof fn law_exhausted_start_restores_the_target(
    manager: CoreManager,
    timing: RetryTiming,
    flow: ServiceStartFlow,
    event: ServiceStartEvent,
)
    requires
        target_read(flow) is Some,
    ensures
        ({
            let next = manager.service_start_next(timing, flow, event);
            match next.2 {
                ServiceStartAction::Finish { result, .. } => result is Ok,
                ServiceStartAction::RestoreIcs(snapshot) => Some(snapshot) == target_read(flow)
                    && next.1 is Restoring,
                _ => target_read(next.1) == target_read(flow),
            }
        }),
        forall|attempt: u32, snapshot: WindowsIcsRecoveryTransaction, error: CoreError|
            attempt + 1 >= timing.retries ==> #[trigger] attempt_failed(
                timing,
                attempt,
                Some(snapshot),
                error,
            ) == (
                (ServiceStartFlow::Restoring { error }),
                ServiceStartAction::RestoreIcs(snapshot),
            ),
{
}

/// The error that an attempt of a start through the service comes to at `flow`
/// on `event`, unless the service says that the core runs all the same.
pub open spec fn attempt_error(flow: ServiceStartFlow, event: ServiceStartEvent) -> Option<
    CoreError,
> {
    match (flow, event) {
        (ServiceStartFlow::Snapshotting { .. }, ServiceStartEvent::Snapshotted(Err(error))) => Some(
            error,
        ),
        (ServiceStartFlow::Configuring { .. }, ServiceStartEvent::Configured(Err(error))) => Some(
            error,
        ),
        (ServiceStartFlow::Confirming { error, .. }, ServiceStartEvent::ServiceCore(_)) => Some(
            error,
        ),
        _ => None,
    }
}

/// Which attempt a start through the service at `flow` is at.
pub open spec fn attempt_of(flow: ServiceStartFlow) -> Option<u32> {
    match flow {
        ServiceStartFlow::Snapshotting { attempt } => Some(attempt),
        ServiceStartFlow::Configuring { attempt, .. } => Some(attempt),
        ServiceStartFlow::Running { attempt, .. } => Some(attempt),
        ServiceStartFlow::Confirming { attempt, .. } => Some(attempt),
        ServiceStartFlow::Pausing { attempt, .. } => Some(attempt),
        _ => None,
    }
}

/// What a start through the service does, it does for a reason: for each thing
/// that it asks for, where it stood, what came in, and how it goes on.
pub proof fn law_service_start_acts_for_a_reason(
    manager: CoreManager,
    timing: RetryTiming,
    flow: ServiceStartFlow,
    event: ServiceStartEvent,
)
    ensures
        ({
            let next = manager.service_start_next(timing, flow, event);
            let windows = manager.platform is Windows;
            match next.2 {
                ServiceStartAction::WriteRunFile => false,
                ServiceStartAction::SnapshotIcs => {
                    &&& next.0 == manager
                    &&& next.1 matches ServiceStartFlow::Snapshotting { attempt }
                    &&& match flow {
                        ServiceStartFlow::Writing => windows && event is RunFileWritten
                            && event->RunFileWritten_0 is Ok && timing.retries > 0 && attempt == 0,
                        ServiceStartFlow::Pausing { attempt: same, snapshot } => event is Slept
                            && snapshot is None && attempt == same,
                        _ => false,
                    }
                },
                ServiceStartAction::ConfigureIcs => {
                    &&& next.0 == manager
                    &&& next.1 matches ServiceStartFlow::Configuring { attempt, snapshot }
                    &&& match flow {
                        ServiceStartFlow::Snapshotting { attempt: same } => event
                            == ServiceStartEvent::Snapshotted(Ok(snapshot)) && attempt == same,
                        ServiceStartFlow::Pausing { attempt: same, snapshot: kept } => event is Slept
                            && kept == Some(snapshot) && attempt == same,
                        _ => false,
                    }
                },
                ServiceStartAction::RunCore => {
                    &&& next.0 == manager
                    &&& match flow {
                        ServiceStartFlow::Writing => !windows && event is RunFileWritten
                            && event->RunFileWritten_0 is Ok && next.1 is RunningOnce,
                        ServiceStartFlow::Configuring { attempt, snapshot } => event is Configured
                            && event->Configured_0 is Ok && next.1 == (ServiceStartFlow::Running {
                            attempt,
                            snapshot,
                        }),
                        _ => false,
                    }
                },
                ServiceStartAction::QueryServiceCore => {
                    &&& next.0 == manager
                    &&& flow matches ServiceStartFlow::Running { attempt, snapshot }
                    &&& event matches ServiceStartEvent::Ran(Err(error))
                    &&& next.1 == ServiceStartFlow::Confirming { attempt, snapshot, error }
                },
                ServiceStartAction::Sleep { delay } => {
                    &&& next.0 == manager && delay == timing.delay
                    &&& attempt_error(flow, event) is Some
                    &&& next.1 matches ServiceStartFlow::Pausing { attempt, snapshot }
                    &&& attempt == attempt_of(flow)->0 + 1 && attempt < timing.retries
                    &&& snapshot == target_read(flow)
                    &&& event matches ServiceStartEvent::ServiceCore(running) ==> running != Ok::<
                        bool,
                        CoreError,
                    >(true)
                },
                ServiceStartAction::RestoreIcs(snapshot) => {
                    &&& next.0 == manager
                    &&& next.1 matches ServiceStartFlow::Restoring { error }
                    &&& attempt_error(flow, event) == Some(error)
                    &&& attempt_of(flow)->0 + 1 >= timing.retries
                    &&& target_read(flow) == Some(snapshot)
                    &&& event matches ServiceStartEvent::ServiceCore(running) ==> running != Ok::<
                        bool,
                        CoreError,
                    >(true)
                },
                ServiceStartAction::Finish { result: Ok(_), schedule_ics } => {
                    &&& next.1 is Finished
                    &&& next.0 == CoreManager { running_mode: RunningMode::Service, ..manager }
                    &&& schedule_ics == windows
                    &&& match event {
                        ServiceStartEvent::Ran(ran) => ran is Ok && (flow is Running
                            || flow is RunningOnce),
                        ServiceStartEvent::ServiceCore(running) => flow is Confirming && running
                            == Ok::<bool, CoreError>(true),
                        _ => false,
                    }
                },
                ServiceStartAction::Finish { result: Err(error), schedule_ics } => {
                    &&& next.1 is Finished && next.0 == manager && !schedule_ics
                    &&& match flow {
                        ServiceStartFlow::Writing => match event {
                            ServiceStartEvent::RunFileWritten(Err(cause)) => error == cause,
                            ServiceStartEvent::RunFileWritten(Ok(_)) => windows && timing.retries
                                == 0 && error == CoreError::Plain(
                                Message::Note(Note::ServiceStartFailed),
                            ),
                            _ => false,
                        },
                        ServiceStartFlow::Snapshotting { attempt } => event
                            == ServiceStartEvent::Snapshotted(Err(error)) && attempt + 1
                            >= timing.retries,
                        ServiceStartFlow::Restoring { error: cause } => match event {
                            ServiceStartEvent::Restored(Ok(_)) => error == cause,
                            ServiceStartEvent::Restored(Err(reason)) => error
                                == CoreError::Context(
                                Message::IcsRestoreAfterRetries { reason: Box::new(reason) },
                                Box::new(cause),
                            ),
                            _ => false,
                        },
                        ServiceStartFlow::RunningOnce => event == ServiceStartEvent::Ran(
                            Err(error),
                        ),
                        _ => false,
                    }
                },
                ServiceStartAction::Ignore => {
                    &&& next.0 == manager && next.1 == flow
                    &&& !(flow is Writing && event is RunFileWritten)
                    &&& !(flow is Snapshotting && event is Snapshotted)
                    &&& !(flow is Configuring && event is Configured)
                    &&& !((flow is Running || flow is RunningOnce) && event is Ran)
                    &&& !(flow is Confirming && event is ServiceCore)
                    &&& !(flow is Pausing && event is Slept)
                    &&& !(flow is Restoring && event is Restored)
                },
            }
        }),
{
}

} // verus!
