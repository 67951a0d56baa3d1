//! Handing the core over from a sidecar to the service, once the service is
//! there, on Windows.

use super::decisions::should_rearm_handoff_watcher;
use super::ownership::SidecarSafety;
use super::{CoreManager, RunningMode};
use crate::error::{CoreError, Failure};
use crate::service::status::ServiceStatusSnapshot;
use vstd::prelude::*;

verus! {

/// What an attempt to hand the core over comes to.
#[derive(Debug, Clone, Copy, PartialEq, Eq, Structural)]
pub enum HandoffOutcome {
    /// The service is not ready yet.
    NotReady,
    /// The core has been handed over, or there was none to hand over.
    Done,
    /// The attempt failed.
    Failed,
}

/// Where an attempt stands.
#[derive(Debug, Clone, Copy, PartialEq, Eq, Structural)]
pub enum HandoffFlow {
    /// The maintenance of the service is being scheduled.
    Scheduling,
    /// The service is being asked.
    Probing,
    /// It answered, and the configuration lock is tried.
    TakingLock,
    /// The lock is held, and the right to start and stop the core is awaited.
    TakingLifecycle,
    /// The service is being asked again.
    Reprobing,
    /// The configuration is being generated anew; `fallback` is whether the
    /// sidecar's Run file has TUN turned off.
    Generating { fallback: bool },
    /// The sidecar is being stopped.
    Stopping { fallback: bool },
    /// The service is being asked to start the core.
    Starting { fallback: bool },
    /// It did, and the configuration is being taken over.
    Applying,
    /// It did not, and the sidecar is being brought back, if that is safe.
    Recovering,
    Finished,
}

/// What comes back from outside.
#[derive(Debug)]
pub enum HandoffEvent {
    MaintenanceScheduled,
    Probed(Result<ServiceStatusSnapshot, CoreError>),
    LockTried { taken: bool },
    LifecycleTaken,
    Generated(Result<(), CoreError>),
    Stopped(Result<(), CoreError>),
    Started(Result<(), CoreError>),
    Applied,
    Recovered,
}

/// What to do next. What is held is given back with `Finish`.
#[derive(Debug)]
pub enum HandoffAction {
    /// To schedule the maintenance of the service, if it has not been.
    ScheduleMaintenance,
    ProbeService,
    TryLock,
    AwaitLifecycle,
    Generate,
    StopSidecar,
    StartByService,
    ApplyRuntime,
    Recover { restore_tun_fallback: bool },
    Finish(HandoffOutcome),
    Ignore,
}

impl CoreManager {
    /// Where an attempt goes from `flow` on `event`.
    pub open spec fn handoff_next(self, flow: HandoffFlow, event: HandoffEvent) -> (
        HandoffFlow,
        HandoffAction,
    ) {
        match (flow, event) {
            (HandoffFlow::Scheduling, HandoffEvent::MaintenanceScheduled) => (
                HandoffFlow::Probing,
                HandoffAction::ProbeService,
            ),
            (HandoffFlow::Probing, HandoffEvent::Probed(probe)) => match probe {
                Err(_) => (
                    HandoffFlow::Finished,
                    HandoffAction::Finish(HandoffOutcome::NotReady),
                ),
                Ok(_) => (HandoffFlow::TakingLock, HandoffAction::TryLock),
            },
            (HandoffFlow::TakingLock, HandoffEvent::LockTried { taken }) => if taken {
                (HandoffFlow::TakingLifecycle, HandoffAction::AwaitLifecycle)
            } else {
                (HandoffFlow::Finished, HandoffAction::Finish(HandoffOutcome::NotReady))
            },
            (HandoffFlow::TakingLifecycle, HandoffEvent::LifecycleTaken) => {
                if self.running_mode is Sidecar {
                    (HandoffFlow::Reprobing, HandoffAction::ProbeService)
                } else {
                    (HandoffFlow::Finished, HandoffAction::Finish(HandoffOutcome::Done))
                }
            },
            (HandoffFlow::Reprobing, HandoffEvent::Probed(probe)) => match probe {
                Err(_) => (
                    HandoffFlow::Finished,
                    HandoffAction::Finish(HandoffOutcome::NotReady),
                ),
                Ok(_) => (
                    HandoffFlow::Generating { fallback: self.windows_sidecar_tun_fallback_active },
                    HandoffAction::Generate,
                ),
            },
            (HandoffFlow::Generating { fallback }, HandoffEvent::Generated(generated)) => {
                match generated {
                    Err(_) => (
                        HandoffFlow::Finished,
                        HandoffAction::Finish(HandoffOutcome::Failed),
                    ),
                    Ok(()) => (HandoffFlow::Stopping { fallback }, HandoffAction::StopSidecar),
                }
            },
            (HandoffFlow::Stopping { fallback }, HandoffEvent::Stopped(stopped)) => {
                match stopped {
                    Err(_) => (
                        HandoffFlow::Finished,
                        HandoffAction::Finish(HandoffOutcome::Failed),
                    ),
                    Ok(()) => (HandoffFlow::Starting { fallback }, HandoffAction::StartByService),
                }
            },
            (HandoffFlow::Starting { fallback }, HandoffEvent::Started(started)) => {
                match started {
                    Ok(()) => (HandoffFlow::Applying, HandoffAction::ApplyRuntime),
                    Err(_) => (
                        HandoffFlow::Recovering,
                        HandoffAction::Recover { restore_tun_fallback: fallback },
                    ),
                }
            },
            (HandoffFlow::Applying, HandoffEvent::Applied) => (
                HandoffFlow::Finished,
                HandoffAction::Finish(HandoffOutcome::Done),
            ),
            (HandoffFlow::Recovering, HandoffEvent::Recovered) => (
                HandoffFlow::Finished,
                HandoffAction::Finish(HandoffOutcome::Failed),
            ),
            (flow, _) => (flow, HandoffAction::Ignore),
        }
    }

    /// Begins an attempt to hand the core over; the maintenance of the service
    /// is seen to first.
    pub fn try_handoff_sidecar_to_service(&self) -> (r: (HandoffFlow, HandoffAction))
        ensures
            r == (HandoffFlow::Scheduling, HandoffAction::ScheduleMaintenance),
    {
        (HandoffFlow::Scheduling, HandoffAction::ScheduleMaintenance)
    }

    /// Takes an attempt one event further.
    pub fn handoff_step(&self, flow: HandoffFlow, event: HandoffEvent) -> (r: (
        HandoffFlow,
        HandoffAction,
    ))
        ensures
            r == self.handoff_next(flow, event),
    {
        match (flow, event) {
            (HandoffFlow::Scheduling, HandoffEvent::MaintenanceScheduled) => (
                HandoffFlow::Probing,
                HandoffAction::ProbeService,
            ),
            (HandoffFlow::Probing, HandoffEvent::Probed(probe)) => match probe {
                Err(_) => finish_handoff(HandoffOutcome::NotReady),
                Ok(_) => (HandoffFlow::TakingLock, HandoffAction::TryLock),
            },
            (HandoffFlow::TakingLock, HandoffEvent::LockTried { taken }) => if taken {
                (HandoffFlow::TakingLifecycle, HandoffAction::AwaitLifecycle)
            } else {
                finish_handoff(HandoffOutcome::NotReady)
            },
            (HandoffFlow::TakingLifecycle, HandoffEvent::LifecycleTaken) => {
                match self.running_mode {
                    RunningMode::Sidecar => (HandoffFlow::Reprobing, HandoffAction::ProbeService),
                    _ => finish_handoff(HandoffOutcome::Done),
                }
            },
            (HandoffFlow::Reprobing, HandoffEvent::Probed(probe)) => match probe {
                Err(_) => finish_handoff(HandoffOutcome::NotReady),
                Ok(_) => (
                    HandoffFlow::Generating {
                        fallback: self.windows_sidecar_tun_fallback_active(),
                    },
                    HandoffAction::Generate,
                ),
            },
            (HandoffFlow::Generating { fallback }, HandoffEvent::Generated(generated)) => {
                match generated {
                    Err(_) => finish_handoff(HandoffOutcome::Failed),
                    Ok(()) => (HandoffFlow::Stopping { fallback }, HandoffAction::StopSidecar),
                }
            },
            (HandoffFlow::Stopping { fallback }, HandoffEvent::Stopped(stopped)) => {
                match stopped {
                    Err(_) => finish_handoff(HandoffOutcome::Failed),
                    Ok(()) => (HandoffFlow::Starting { fallback }, HandoffAction::StartByService),
                }
            },
            (HandoffFlow::Starting { fallback }, HandoffEvent::Started(started)) => {
                match started {
                    Ok(()) => (HandoffFlow::Applying, HandoffAction::ApplyRuntime),
                    Err(_) => (
                        HandoffFlow::Recovering,
                        HandoffAction::Recover { restore_tun_fallback: fallback },
                    ),
                }
            },
            (HandoffFlow::Applying, HandoffEvent::Applied) => finish_handoff(HandoffOutcome::Done),
            (HandoffFlow::Recovering, HandoffEvent::Recovered) => finish_handoff(
                HandoffOutcome::Failed,
            ),
            (flow, _) => (flow, HandoffAction::Ignore),
        }
    }
}

fn finish_handoff(outcome: HandoffOutcome) -> (r: (HandoffFlow, HandoffAction))
    ensures
        r == (HandoffFlow::Finished, HandoffAction::Finish(outcome)),
{
    (HandoffFlow::Finished, HandoffAction::Finish(outcome))
}

/// Where bringing the sidecar back after a failed attempt stands.
#[derive(Debug, Clone, Copy, PartialEq, Eq, Structural)]
pub enum RecoverFlow {
    /// The lease on the core is tried; `restore` is whether the TUN fallback
    /// is to be turned on again.
    Trying { restore: bool },
    /// The lease is held, and the service is being asked.
    Probing { restore: bool },
    /// It did not answer, and what else speaks against a sidecar is looked at.
    CheckingSafety { restore: bool },
    /// Nothing does, and the sidecar is being started.
    Starting,
    /// It has been, and whether it still runs is asked.
    ProbingSession,
    /// There is no sidecar, and the Run file is being written as it was.
    Abandoning,
    /// That has been done, and the configuration is being taken over.
    AbandonedApplying,
    /// Another process holds the lease; the configuration is being taken over.
    ContendedApplying,
    /// The service is being asked whether it runs the core.
    Confirming,
    /// The sidecar runs, and the configuration is being taken over.
    Applying,
    Finished,
}

/// What comes back from outside.
#[derive(Debug)]
pub enum RecoverEvent {
    /// Whether the lease was acquired.
    Tried(Result<bool, Failure>),
    Probed(Result<ServiceStatusSnapshot, CoreError>),
    Safety(SidecarSafety),
    Started(Result<(), CoreError>),
    /// What waiting no time for the sidecar's process returned.
    SessionProbed { wait_status: u32 },
    /// The Run file has been written, or could not be.
    RunFileWritten(Result<(), Failure>),
    Applied,
    ServiceCore(Result<bool, CoreError>),
}

/// What to do next. A lease that is held and not handed to a sidecar is given
/// back with the first `WriteRunFile`.
#[derive(Debug)]
pub enum RecoverAction {
    TryAcquire,
    ProbeService,
    CheckSafety,
    StartSidecar,
    ProbeSession,
    WriteRunFile,
    ApplyRuntime,
    QueryServiceCore,
    Finish,
    Ignore,
}

impl CoreManager {
    /// The sidecar is not brought back.
    pub open spec fn recovery_abandoned(self) -> (Self, RecoverFlow, RecoverAction) {
        (
            self.with_tun_fallback(false),
            RecoverFlow::Abandoning,
            RecoverAction::WriteRunFile,
        )
    }

    /// Where bringing the sidecar back goes from `flow` on `event`.
    pub open spec fn recover_next(self, flow: RecoverFlow, event: RecoverEvent) -> (
        Self,
        RecoverFlow,
        RecoverAction,
    ) {
        match (flow, event) {
            (RecoverFlow::Trying { restore }, RecoverEvent::Tried(tried)) => match tried {
                Err(_) => self.recovery_abandoned(),
                Ok(true) => (self, RecoverFlow::Probing { restore }, RecoverAction::ProbeService),
                Ok(false) => (
                    self,
                    RecoverFlow::ContendedApplying,
                    RecoverAction::ApplyRuntime,
                ),
            },
            (RecoverFlow::Probing { restore }, RecoverEvent::Probed(probe)) => match probe {
                Ok(_) => self.recovery_abandoned(),
                Err(_) => (
                    self,
                    RecoverFlow::CheckingSafety { restore },
                    RecoverAction::CheckSafety,
                ),
            },
            (RecoverFlow::CheckingSafety { restore }, RecoverEvent::Safety(safety)) => {
                if safety.safe() {
                    (
                        self.with_tun_fallback(restore),
                        RecoverFlow::Starting,
                        RecoverAction::StartSidecar,
                    )
                } else {
                    self.recovery_abandoned()
                }
            },
            (RecoverFlow::Starting, RecoverEvent::Started(started)) => match started {
                Err(_) => self.recovery_abandoned(),
                Ok(()) => (self, RecoverFlow::ProbingSession, RecoverAction::ProbeSession),
            },
            (RecoverFlow::ProbingSession, RecoverEvent::SessionProbed { wait_status }) => {
                if self.sidecar_recorded() && wait_status == 258 {
                    (self, RecoverFlow::Applying, RecoverAction::ApplyRuntime)
                } else {
                    self.recovery_abandoned()
                }
            },
            (RecoverFlow::Abandoning, RecoverEvent::RunFileWritten(_)) => (
                self,
                RecoverFlow::AbandonedApplying,
                RecoverAction::ApplyRuntime,
            ),
            (RecoverFlow::AbandonedApplying, RecoverEvent::Applied) => (
                self.in_mode(RunningMode::NotRunning),
                RecoverFlow::Finished,
                RecoverAction::Finish,
            ),
            (RecoverFlow::ContendedApplying, RecoverEvent::Applied) => (
                self,
                RecoverFlow::Confirming,
                RecoverAction::QueryServiceCore,
            ),
            (RecoverFlow::Confirming, RecoverEvent::ServiceCore(running)) => (
                self.in_mode(
                    if running == Ok::<bool, CoreError>(true) {
                        RunningMode::Service
                    } else {
                        RunningMode::NotRunning
                    },
                ),
                RecoverFlow::Finished,
                RecoverAction::Finish,
            ),
            (RecoverFlow::Applying, RecoverEvent::Applied) => (
                self,
                RecoverFlow::Finished,
                RecoverAction::Finish,
            ),
            (flow, _) => (self, flow, RecoverAction::Ignore),
        }
    }

    /// Begins to bring the sidecar back after a failed attempt. The TUN
    /// fallback is off until nothing speaks against a sidecar.
    pub fn recover_sidecar_after_failed_handoff(&mut self, restore_tun_fallback: bool) -> (r: (
        RecoverFlow,
        RecoverAction,
    ))
        ensures
            *final(self) == old(self).with_tun_fallback(false),
            r == (
                (RecoverFlow::Trying { restore: restore_tun_fallback }),
                RecoverAction::TryAcquire,
            ),
    {
        self.set_windows_sidecar_tun_fallback_active(false);
        (RecoverFlow::Trying { restore: restore_tun_fallback }, RecoverAction::TryAcquire)
    }

    fn abandon_failed_handoff_sidecar_recovery(&mut self) -> (r: (RecoverFlow, RecoverAction))
        ensures
            (*final(self), r.0, r.1) == old(self).recovery_abandoned(),
    {
        self.rollback_windows_tun_fallback();
        (RecoverFlow::Abandoning, RecoverAction::WriteRunFile)
    }

    fn resolve_contended_handoff_owner(&mut self, running: Result<bool, CoreError>)
        ensures
            *final(self) == old(self).in_mode(
                if running == Ok::<bool, CoreError>(true) {
                    RunningMode::Service
                } else {
                    RunningMode::NotRunning
                },
            ),
    {
        match running {
            Ok(true) => self.set_running_mode(RunningMode::Service),
            _ => self.set_running_mode(RunningMode::NotRunning),
        }
    }

    /// Takes bringing the sidecar back one event further.
    pub fn recover_step(&mut self, flow: RecoverFlow, event: RecoverEvent) -> (r: (
        RecoverFlow,
        RecoverAction,
    ))
        ensures
            (*final(self), r.0, r.1) == old(self).recover_next(flow, event),
    {
        match (flow, event) {
            (RecoverFlow::Trying { restore }, RecoverEvent::Tried(tried)) => match tried {
                Err(_) => self.abandon_failed_handoff_sidecar_recovery(),
                Ok(true) => (RecoverFlow::Probing { restore }, RecoverAction::ProbeService),
                Ok(false) => (RecoverFlow::ContendedApplying, RecoverAction::ApplyRuntime),
            },
            (RecoverFlow::Probing { restore }, RecoverEvent::Probed(probe)) => match probe {
                Ok(_) => self.abandon_failed_handoff_sidecar_recovery(),
                Err(_) => (RecoverFlow::CheckingSafety { restore }, RecoverAction::CheckSafety),
            },
            (RecoverFlow::CheckingSafety { restore }, RecoverEvent::Safety(safety)) => {
                if safety.is_safe() {
                    self.set_windows_sidecar_tun_fallback_active(restore);
                    (RecoverFlow::Starting, RecoverAction::StartSidecar)
                } else {
                    self.abandon_failed_handoff_sidecar_recovery()
                }
            },
            (RecoverFlow::Starting, RecoverEvent::Started(started)) => match started {
                Err(_) => self.abandon_failed_handoff_sidecar_recovery(),
                Ok(()) => (RecoverFlow::ProbingSession, RecoverAction::ProbeSession),
            },
            (RecoverFlow::ProbingSession, RecoverEvent::SessionProbed { wait_status }) => {
                if self.windows_sidecar_session_is_live(wait_status) {
                    (RecoverFlow::Applying, RecoverAction::ApplyRuntime)
                } else {
                    self.abandon_failed_handoff_sidecar_recovery()
                }
            },
            (RecoverFlow::Abandoning, RecoverEvent::RunFileWritten(_)) => (
                RecoverFlow::AbandonedApplying,
                RecoverAction::ApplyRuntime,
            ),
            (RecoverFlow::AbandonedApplying, RecoverEvent::Applied) => {
                self.set_running_mode(RunningMode::NotRunning);
                (RecoverFlow::Finished, RecoverAction::Finish)
            },
            (RecoverFlow::ContendedApplying, RecoverEvent::Applied) => (
                RecoverFlow::Confirming,
                RecoverAction::QueryServiceCore,
            ),
            (RecoverFlow::Confirming, RecoverEvent::ServiceCore(running)) => {
                self.resolve_contended_handoff_owner(running);
                (RecoverFlow::Finished, RecoverAction::Finish)
            },
            (RecoverFlow::Applying, RecoverEvent::Applied) => (
                RecoverFlow::Finished,
                RecoverAction::Finish,
            ),
            (flow, _) => (flow, RecoverAction::Ignore),
        }
    }
}

/// How long a watcher waits for the service, in milliseconds.
#[derive(Debug, Clone, Copy, PartialEq, Eq, Structural)]
pub struct WatchTiming {
    pub window: u64,
    pub interval: u64,
}

/// Where a watcher stands. `generation` is the request it serves, and
/// `started` when it began.
#[derive(Debug, Clone, Copy, PartialEq, Eq, Structural)]
pub enum WatchFlow {
    ReadingClock { generation: u64, started: u64 },
    Pausing { generation: u64, started: u64 },
    HandingOver { generation: u64, started: u64 },
    Finished,
}

/// What comes back from outside.
#[derive(Debug, Clone, Copy, PartialEq, Eq, Structural)]
pub enum WatchEvent {
    Clock { now: u64 },
    Slept,
    Attempted(HandoffOutcome),
}

/// What to do next.
#[derive(Debug, Clone, Copy, PartialEq, Eq, Structural)]
pub enum WatchAction {
    ReadClock,
    Sleep { interval: u64 },
    TryHandoff,
    /// The watcher ends; `rearm` is whether another is to be spawned, for a
    /// request that came meanwhile.
    Finish { rearm: bool },
    Ignore,
}

impl CoreManager {
    /// The watcher that serves request `generation` ends.
    pub open spec fn watch_ended(self, generation: u64) -> (Self, WatchFlow, WatchAction) {
        (
            CoreManager { handoff_watcher_running: false, ..self },
            WatchFlow::Finished,
            WatchAction::Finish {
                rearm: self.running_mode is Sidecar && self.handoff_watcher_generation
                    != generation,
            },
        )
    }

    /// Where a watcher goes from `flow` on `event`.
    pub open spec fn watch_next(self, timing: WatchTiming, flow: WatchFlow, event: WatchEvent) -> (
        Self,
        WatchFlow,
        WatchAction,
    ) {
        match (flow, event) {
            (WatchFlow::ReadingClock { generation, started }, WatchEvent::Clock { now }) => {
                if now - started >= timing.window || (now < started && timing.window == 0) {
                    self.watch_ended(generation)
                } else {
                    (
                        self,
                        WatchFlow::Pausing { generation, started },
                        WatchAction::Sleep { interval: timing.interval },
                    )
                }
            },
            (WatchFlow::Pausing { generation, started }, WatchEvent::Slept) => {
                if self.running_mode is Sidecar {
                    (
                        self,
                        WatchFlow::HandingOver { generation, started },
                        WatchAction::TryHandoff,
                    )
                } else {
                    self.watch_ended(generation)
                }
            },
            (WatchFlow::HandingOver { generation, started }, WatchEvent::Attempted(outcome)) => {
                if outcome is NotReady {
                    (
                        self,
                        WatchFlow::ReadingClock { generation, started },
                        WatchAction::ReadClock,
                    )
                } else {
                    self.watch_ended(generation)
                }
            },
            (flow, _) => (self, flow, WatchAction::Ignore),
        }
    }

    /// Asks for a watcher. One that is there already is left to it.
    pub fn spawn_service_handoff_watcher(&mut self, now: u64) -> (r: Option<
        (WatchFlow, WatchAction),
    >)
        ensures
            *final(self) == (CoreManager {
                handoff_watcher_generation: super::following(old(self).handoff_watcher_generation),
                handoff_watcher_running: true,
                ..*old(self)
            }),
            r == (if old(self).handoff_watcher_running {
                None
            } else {
                Some(
                    (
                        (WatchFlow::ReadingClock {
                            generation: super::following(old(self).handoff_watcher_generation),
                            started: now,
                        }),
                        WatchAction::ReadClock,
                    ),
                )
            }),
    {
        let generation: u64 = self.handoff_watcher_generation.wrapping_add(1);
        self.handoff_watcher_generation = generation;
        if self.handoff_watcher_running {
            return None;
        }
        self.handoff_watcher_running = true;
        Some((WatchFlow::ReadingClock { generation, started: now }, WatchAction::ReadClock))
    }

    fn end_watch(&mut self, generation: u64) -> (r: (WatchFlow, WatchAction))
        ensures
            (*final(self), r.0, r.1) == old(self).watch_ended(generation),
    {
        self.handoff_watcher_running = false;
        let sidecar_running = match self.running_mode {
            RunningMode::Sidecar => true,
            _ => false,
        };
        let rearm = should_rearm_handoff_watcher(
            generation,
            self.handoff_watcher_generation,
            sidecar_running,
        );
        (WatchFlow::Finished, WatchAction::Finish { rearm })
    }

    /// Takes a watcher one event further.
    pub fn watch_step(&mut self, timing: &WatchTiming, flow: WatchFlow, event: WatchEvent) -> (r: (
        WatchFlow,
        WatchAction,
    ))
        ensures
            (*final(self), r.0, r.1) == old(self).watch_next(*timing, flow, event),
    {
        match (flow, event) {
            (WatchFlow::ReadingClock { generation, started }, WatchEvent::Clock { now }) => {
                let elapsed: u64 = now.saturating_sub(started);
                if elapsed >= timing.window {
                    self.end_watch(generation)
                } else {
                    (
                        WatchFlow::Pausing { generation, started },
                        WatchAction::Sleep { interval: timing.interval },
                    )
                }
            },
            (WatchFlow::Pausing { generation, started }, WatchEvent::Slept) => {
                match self.running_mode {
                    RunningMode::Sidecar => (
                        WatchFlow::HandingOver { generation, started },
                        WatchAction::TryHandoff,
                    ),
                    _ => self.end_watch(generation),
                }
            },
            (WatchFlow::HandingOver { generation, started }, WatchEvent::Attempted(outcome)) => {
                match outcome {
                    HandoffOutcome::NotReady => (
                        WatchFlow::ReadingClock { generation, started },
                        WatchAction::ReadClock,
                    ),
                    _ => self.end_watch(generation),
                }
            },
            (flow, _) => (flow, WatchAction::Ignore),
        }
    }
}

} // verus!
