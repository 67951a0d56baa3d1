//! Starting the core.

use super::decisions::{resolve_tun_fallback, TunFallbackResolution};
use super::ownership::WindowsStartupPreparation;
use super::{CoreManager, RunningMode};
use crate::error::{in_context, note_error, CoreError, Failure, Message, Note};
use crate::platform::Platform;
use crate::service::status::ServiceStatus;
use vstd::prelude::*;

verus! {

/// Where a start stands. `attempted_service` is whether, on Windows, the
/// service was asked to start the core; `fallback` is whether the sidecar's
/// Run file has TUN turned off until the start is settled.
#[derive(Debug)]
pub enum StartFlow {
    /// Whether the application is about to exit is being asked.
    CheckingExit,
    /// Who runs the core is being decided.
    Preparing,
    /// Whether the application is about to exit is being asked again.
    RecheckingExit { startup: WindowsStartupPreparation },
    /// The application exits, and the Run file is being written as it was.
    UndoingForExit,
    /// The configuration is being generated anew.
    Regenerating { fallback: bool },
    /// The core is being started.
    Starting { attempted_service: bool, fallback: bool },
    /// The core has started, and whether the sidecar still runs is asked.
    Committing { attempted_service: bool },
    /// It does not, and the Run file is being written as it was.
    RestoringRunFile { attempted_service: bool },
    /// The core has not started, and the Run file is being written as it was.
    RollingBack { attempted_service: bool, error: CoreError },
    /// The start failed, and the service is asked whether it runs the core.
    ConfirmingService { error: CoreError },
    /// The core runs, and its configuration is being taken over.
    Applying,
    Finished,
}

/// What comes back from outside.
#[derive(Debug)]
pub enum StartEvent {
    Exiting(bool),
    Prepared(Result<WindowsStartupPreparation, CoreError>),
    Generated(Result<(), CoreError>),
    Started(Result<(), CoreError>),
    /// What waiting no time for the sidecar's process returned.
    SessionProbed { wait_status: u32 },
    RunFileWritten(Result<(), Failure>),
    ServiceCore(Result<bool, CoreError>),
    Applied,
}

/// What to do next.
#[derive(Debug)]
pub enum StartAction {
    QueryExiting,
    PrepareStartup,
    Generate,
    StartByService,
    /// To start a sidecar, on Windows with the lease that was acquired for it.
    StartBySidecar,
    ProbeSession,
    WriteRunFile,
    QueryServiceCore,
    ApplyRuntime,
    /// The start is over. `reported` is the mode that the application is to
    /// show, and `watch` whether a watcher is to hand the core over to the
    /// service later.
    Finish { result: Result<(), CoreError>, reported: Option<RunningMode>, watch: bool },
    Ignore,
}

/// The error of a start whose sidecar was gone before it could be settled;
/// `written` is how writing the Run file as it was went.
pub open spec fn early_exit(written: Result<(), Failure>) -> CoreError {
    match written {
        Ok(()) => CoreError::of(Note::SidecarExitedEarly),
        Err(failure) => CoreError::Outside(failure).within(Note::RestoreRunFile),
    }
}

/// `error`, together with how writing the Run file as it was went.
pub open spec fn with_rollback(error: CoreError, written: Result<(), Failure>) -> CoreError {
    match written {
        Ok(()) => error,
        Err(failure) => CoreError::Context(
            Message::TunFallbackRollback { rollback: failure },
            Box::new(error),
        ),
    }
}

impl CoreManager {
    /// A start ends without a core.
    pub open spec fn start_refused(self, error: CoreError) -> (Self, StartFlow, StartAction) {
        (
            self.in_mode(RunningMode::NotRunning),
            StartFlow::Finished,
            StartAction::Finish {
                result: Err(error),
                reported: Some(RunningMode::NotRunning),
                watch: false,
            },
        )
    }

    /// A start has failed: only a core that the service turns out to run is
    /// kept, and only the service is asked for it that was asked to start it.
    pub open spec fn start_failed(self, attempted_service: bool, error: CoreError) -> (
        Self,
        StartFlow,
        StartAction,
    ) {
        if attempted_service {
            (self, StartFlow::ConfirmingService { error }, StartAction::QueryServiceCore)
        } else {
            self.start_refused(error)
        }
    }

    /// The core is to be started by whoever the mode names.
    pub open spec fn start_launched(self, startup: WindowsStartupPreparation) -> (
        Self,
        StartFlow,
        StartAction,
    ) {
        if self.running_mode is Service {
            if self.platform is Windows {
                (
                    self,
                    StartFlow::Regenerating { fallback: startup.tun_fallback },
                    StartAction::Generate,
                )
            } else {
                (
                    self,
                    StartFlow::Starting { attempted_service: false, fallback: false },
                    StartAction::StartByService,
                )
            }
        } else if self.platform is Windows && !startup.sidecar_owner {
            self.start_settled(
                false,
                startup.tun_fallback,
                Err(CoreError::of(Note::SidecarWithoutOwner)),
            )
        } else {
            (
                self,
                StartFlow::Starting {
                    attempted_service: false,
                    fallback: self.platform is Windows && startup.tun_fallback,
                },
                StartAction::StartBySidecar,
            )
        }
    }

    /// What follows once the core has been started, or has failed to.
    pub open spec fn start_settled(
        self,
        attempted_service: bool,
        fallback: bool,
        result: Result<(), CoreError>,
    ) -> (Self, StartFlow, StartAction) {
        match result {
            Ok(()) => if fallback {
                (self, StartFlow::Committing { attempted_service }, StartAction::ProbeSession)
            } else {
                (self, StartFlow::Applying, StartAction::ApplyRuntime)
            },
            Err(error) => if fallback {
                (
                    self.with_tun_fallback(false),
                    StartFlow::RollingBack { attempted_service, error },
                    StartAction::WriteRunFile,
                )
            } else {
                self.start_failed(attempted_service, error)
            },
        }
    }

    /// Where a start goes from `flow` on `event`.
    pub open spec fn start_next(self, flow: StartFlow, event: StartEvent) -> (
        Self,
        StartFlow,
        StartAction,
    ) {
        match (flow, event) {
            (StartFlow::CheckingExit, StartEvent::Exiting(exiting)) => if exiting || !(
            self.running_mode is NotRunning) {
                (
                    self,
                    StartFlow::Finished,
                    StartAction::Finish { result: Ok(()), reported: None, watch: false },
                )
            } else {
                (self, StartFlow::Preparing, StartAction::PrepareStartup)
            },
            (StartFlow::Preparing, StartEvent::Prepared(prepared)) => match prepared {
                Err(error) => (
                    self,
                    StartFlow::Finished,
                    StartAction::Finish { result: Err(error), reported: None, watch: false },
                ),
                Ok(startup) => (
                    self,
                    StartFlow::RecheckingExit { startup },
                    StartAction::QueryExiting,
                ),
            },
            (StartFlow::RecheckingExit { startup }, StartEvent::Exiting(exiting)) => if !exiting {
                self.start_launched(startup)
            } else if self.platform is Windows && startup.tun_fallback {
                (
                    self.with_tun_fallback(false),
                    StartFlow::UndoingForExit,
                    StartAction::WriteRunFile,
                )
            } else {
                (
                    self.in_mode(RunningMode::NotRunning),
                    StartFlow::Finished,
                    StartAction::Finish {
                        result: Ok(()),
                        reported: Some(RunningMode::NotRunning),
                        watch: false,
                    },
                )
            },
            (StartFlow::UndoingForExit, StartEvent::RunFileWritten(written)) => (
                self.in_mode(RunningMode::NotRunning),
                StartFlow::Finished,
                StartAction::Finish {
                    result: match written {
                        Ok(()) => Ok(()),
                        Err(failure) => Err(
                            CoreError::Plain(Message::ExitRollback { rollback: failure }),
                        ),
                    },
                    reported: Some(RunningMode::NotRunning),
                    watch: false,
                },
            ),
            (StartFlow::Regenerating { fallback }, StartEvent::Generated(generated)) => {
                match generated {
                    Ok(()) => (
                        self,
                        StartFlow::Starting { attempted_service: true, fallback },
                        StartAction::StartByService,
                    ),
                    Err(error) => self.start_settled(
                        true,
                        fallback,
                        Err(error.within(Note::RegenerateIntent)),
                    ),
                }
            },
            (
                StartFlow::Starting { attempted_service, fallback },
                StartEvent::Started(result),
            ) => self.start_settled(attempted_service, fallback, result),
            (
                StartFlow::Committing { attempted_service },
                StartEvent::SessionProbed { wait_status },
            ) => if self.windows_sidecar_tun_fallback_active && self.sidecar_recorded()
                && wait_status == 258 {
                (self, StartFlow::Applying, StartAction::ApplyRuntime)
            } else {
                (
                    self.with_tun_fallback(false),
                    StartFlow::RestoringRunFile { attempted_service },
                    StartAction::WriteRunFile,
                )
            },
            (
                StartFlow::RestoringRunFile { attempted_service },
                StartEvent::RunFileWritten(written),
            ) => self.start_failed(attempted_service, early_exit(written)),
            (
                StartFlow::RollingBack { attempted_service, error },
                StartEvent::RunFileWritten(written),
            ) => self.start_failed(attempted_service, with_rollback(error, written)),
            (StartFlow::ConfirmingService { error }, StartEvent::ServiceCore(running)) => {
                if running == Ok::<bool, CoreError>(true) {
                    (
                        self.in_mode(RunningMode::Service),
                        StartFlow::Finished,
                        StartAction::Finish {
                            result: Err(error),
                            reported: Some(RunningMode::Service),
                            watch: false,
                        },
                    )
                } else {
                    self.start_refused(error)
                }
            },
            (StartFlow::Applying, StartEvent::Applied) => (
                self,
                StartFlow::Finished,
                StartAction::Finish {
                    result: Ok(()),
                    reported: Some(self.running_mode),
                    watch: self.platform is Windows && self.running_mode is Sidecar,
                },
            ),
            (flow, _) => (self, flow, StartAction::Ignore),
        }
    }

    /// Begins a start; the configuration lock and the right to start and stop
    /// the core are held all through it.
    pub fn start_core(&self) -> (r: (StartFlow, StartAction))
        ensures
            r == (StartFlow::CheckingExit, StartAction::QueryExiting),
    {
        (StartFlow::CheckingExit, StartAction::QueryExiting)
    }

    /// Begins the first start.
    pub fn init(&self) -> (r: (StartFlow, StartAction))
        ensures
            r == (StartFlow::CheckingExit, StartAction::QueryExiting),
    {
        self.start_core()
    }

    /// Records who runs the core, on Windows, once that has been decided.
    pub fn prepare_startup(
        &mut self,
        prepared: Result<WindowsStartupPreparation, CoreError>,
    ) -> (r: Result<WindowsStartupPreparation, CoreError>)
        ensures
            r == prepared,
            *final(self) == (match prepared {
                Err(_) => *old(self),
                Ok(startup) => old(self).in_mode(
                    if startup.sidecar_owner {
                        RunningMode::Sidecar
                    } else {
                        RunningMode::Service
                    },
                ),
            }),
    {
        match &prepared {
            Ok(startup) => {
                self.set_running_mode(
                    if startup.sidecar_owner {
                        RunningMode::Sidecar
                    } else {
                        RunningMode::Service
                    },
                );
            },
            Err(_) => {},
        }
        prepared
    }

    /// Records who runs the core, elsewhere than on Windows: the service, if
    /// it is ready.
    pub fn prepare_startup_by_status(&mut self, status: &ServiceStatus) -> (r:
        WindowsStartupPreparation)
        ensures
            r == (WindowsStartupPreparation { sidecar_owner: false, tun_fallback: false }),
            *final(self) == old(self).in_mode(
                if *status is Ready {
                    RunningMode::Service
                } else {
                    RunningMode::Sidecar
                },
            ),
    {
        let mode = match status {
            ServiceStatus::Ready => RunningMode::Service,
            _ => RunningMode::Sidecar,
        };
        self.set_running_mode(mode);
        WindowsStartupPreparation { sidecar_owner: false, tun_fallback: false }
    }

    fn refuse_start(&mut self, error: CoreError) -> (r: (StartFlow, StartAction))
        ensures
            (*final(self), r.0, r.1) == old(self).start_refused(error),
    {
        self.set_running_mode(RunningMode::NotRunning);
        (
            StartFlow::Finished,
            StartAction::Finish {
                result: Err(error),
                reported: Some(RunningMode::NotRunning),
                watch: false,
            },
        )
    }

    fn fail_start(&mut self, attempted_service: bool, error: CoreError) -> (r: (
        StartFlow,
        StartAction,
    ))
        ensures
            (*final(self), r.0, r.1) == old(self).start_failed(attempted_service, error),
    {
        if attempted_service {
            (StartFlow::ConfirmingService { error }, StartAction::QueryServiceCore)
        } else {
            self.refuse_start(error)
        }
    }

    fn settle_start(
        &mut self,
        attempted_service: bool,
        fallback: bool,
        result: Result<(), CoreError>,
    ) -> (r: (StartFlow, StartAction))
        ensures
            (*final(self), r.0, r.1) == old(self).start_settled(
                attempted_service,
                fallback,
                result,
            ),
    {
        if fallback {
            match resolve_tun_fallback(result.is_ok()) {
                TunFallbackResolution::KeepSessionRuntime => (
                    StartFlow::Committing { attempted_service },
                    StartAction::ProbeSession,
                ),
                TunFallbackResolution::RollBack => match result {
                    Err(error) => {
                        self.rollback_windows_tun_fallback();
                        (
                            StartFlow::RollingBack { attempted_service, error },
                            StartAction::WriteRunFile,
                        )
                    },
                    Ok(()) => (
                        StartFlow::Committing { attempted_service },
                        StartAction::ProbeSession,
                    ),
                },
            }
        } else {
            match result {
                Ok(()) => (StartFlow::Applying, StartAction::ApplyRuntime),
                Err(error) => self.fail_start(attempted_service, error),
            }
        }
    }

    fn launch(&mut self, startup: WindowsStartupPreparation) -> (r: (StartFlow, StartAction))
        ensures
            (*final(self), r.0, r.1) == old(self).start_launched(startup),
    {
        match (self.running_mode, self.platform) {
            (RunningMode::Service, Platform::Windows) => (
                StartFlow::Regenerating { fallback: startup.tun_fallback },
                StartAction::Generate,
            ),
            (RunningMode::Service, _) => (
                StartFlow::Starting { attempted_service: false, fallback: false },
                StartAction::StartByService,
            ),
            (_, Platform::Windows) => if startup.sidecar_owner {
                (
                    StartFlow::Starting {
                        attempted_service: false,
                        fallback: startup.tun_fallback,
                    },
                    StartAction::StartBySidecar,
                )
            } else {
                self.settle_start(
                    false,
                    startup.tun_fallback,
                    Err(note_error(Note::SidecarWithoutOwner)),
                )
            },
            (_, _) => (
                StartFlow::Starting { attempted_service: false, fallback: false },
                StartAction::StartBySidecar,
            ),
        }
    }

    /// Turns the TUN fallback off, after which the Run file has to be written
    /// as it was.
    pub fn rollback_windows_tun_fallback(&mut self)
        ensures
            *final(self) == old(self).with_tun_fallback(false),
    {
        self.set_windows_sidecar_tun_fallback_active(false);
    }

    /// Keeps the TUN fallback for a sidecar that still runs, and says whether
    /// it does. Where it does not, the fallback is turned off, and the Run
    /// file has to be written as it was.
    pub fn commit_windows_tun_fallback(&mut self, wait_status: u32) -> (r: bool)
        ensures
            r == (old(self).windows_sidecar_tun_fallback_active && old(self).sidecar_recorded()
                && wait_status == 258),
            *final(self) == (if r {
                *old(self)
            } else {
                old(self).with_tun_fallback(false)
            }),
    {
        if !self.windows_sidecar_tun_fallback_active() || !self.windows_sidecar_session_is_live(
            wait_status,
        ) {
            self.set_windows_sidecar_tun_fallback_active(false);
            return false;
        }
        true
    }

    /// Takes a start one event further.
    pub fn start_step(&mut self, flow: StartFlow, event: StartEvent) -> (r: (
        StartFlow,
        StartAction,
    ))
        ensures
            (*final(self), r.0, r.1) == old(self).start_next(flow, event),
    {
        match (flow, event) {
            (StartFlow::CheckingExit, StartEvent::Exiting(exiting)) => {
                let idle = match self.running_mode {
                    RunningMode::NotRunning => true,
                    _ => false,
                };
                if exiting || !idle {
                    (
                        StartFlow::Finished,
                        StartAction::Finish { result: Ok(()), reported: None, watch: false },
                    )
                } else {
                    (StartFlow::Preparing, StartAction::PrepareStartup)
                }
            },
            (StartFlow::Preparing, StartEvent::Prepared(prepared)) => match prepared {
                Err(error) => (
                    StartFlow::Finished,
                    StartAction::Finish { result: Err(error), reported: None, watch: false },
                ),
                Ok(startup) => (StartFlow::RecheckingExit { startup }, StartAction::QueryExiting),
            },
            (StartFlow::RecheckingExit { startup }, StartEvent::Exiting(exiting)) => {
                if !exiting {
                    return self.launch(startup);
                }
                match self.platform {
                    Platform::Windows => if startup.tun_fallback {
                        self.rollback_windows_tun_fallback();
                        return (StartFlow::UndoingForExit, StartAction::WriteRunFile);
                    },
                    _ => {},
                }
                self.set_running_mode(RunningMode::NotRunning);
                (
                    StartFlow::Finished,
                    StartAction::Finish {
                        result: Ok(()),
                        reported: Some(RunningMode::NotRunning),
                        watch: false,
                    },
                )
            },
            (StartFlow::UndoingForExit, StartEvent::RunFileWritten(written)) => {
                self.set_running_mode(RunningMode::NotRunning);
                (
                    StartFlow::Finished,
                    StartAction::Finish {
                        result: match written {
                            Ok(()) => Ok(()),
                            Err(failure) => Err(
                                CoreError::Plain(Message::ExitRollback { rollback: failure }),
                            ),
                        },
                        reported: Some(RunningMode::NotRunning),
                        watch: false,
                    },
                )
            },
            (StartFlow::Regenerating { fallback }, StartEvent::Generated(generated)) => {
                match generated {
                    Ok(()) => (
                        StartFlow::Starting { attempted_service: true, fallback },
                        StartAction::StartByService,
                    ),
                    Err(error) => self.settle_start(
                        true,
                        fallback,
                        Err(in_context(error, Note::RegenerateIntent)),
                    ),
                }
            },
            (
                StartFlow::Starting { attempted_service, fallback },
                StartEvent::Started(result),
            ) => self.settle_start(attempted_service, fallback, result),
            (
                StartFlow::Committing { attempted_service },
                StartEvent::SessionProbed { wait_status },
            ) => if self.commit_windows_tun_fallback(wait_status) {
                (StartFlow::Applying, StartAction::ApplyRuntime)
            } else {
                (StartFlow::RestoringRunFile { attempted_service }, StartAction::WriteRunFile)
            },
            (
                StartFlow::RestoringRunFile { attempted_service },
                StartEvent::RunFileWritten(written),
            ) => {
                let error = match written {
                    Ok(()) => note_error(Note::SidecarExitedEarly),
                    Err(failure) => in_context(CoreError::Outside(failure), Note::RestoreRunFile),
                };
                self.fail_start(attempted_service, error)
            },
            (
                StartFlow::RollingBack { attempted_service, error },
                StartEvent::RunFileWritten(written),
            ) => {
                let error = match written {
                    Ok(()) => error,
                    Err(failure) => CoreError::Context(
                        Message::TunFallbackRollback { rollback: failure },
                        Box::new(error),
                    ),
                };
                self.fail_start(attempted_service, error)
            },
            (StartFlow::ConfirmingService { error }, StartEvent::ServiceCore(running)) => {
                match running {
                    Ok(true) => {
                        self.set_running_mode(RunningMode::Service);
                        (
                            StartFlow::Finished,
                            StartAction::Finish {
                                result: Err(error),
                                reported: Some(RunningMode::Service),
                                watch: false,
                            },
                        )
                    },
                    _ => self.refuse_start(error),
                }
            },
            (StartFlow::Applying, StartEvent::Applied) => {
                let watch = match (self.platform, self.running_mode) {
                    (Platform::Windows, RunningMode::Sidecar) => true,
                    _ => false,
                };
                (
                    StartFlow::Finished,
                    StartAction::Finish {
                        result: Ok(()),
                        reported: Some(self.running_mode),
                        watch,
                    },
                )
            },
            (flow, _) => (flow, StartAction::Ignore),
        }
    }
}

} // verus!
