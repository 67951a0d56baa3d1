//! Deciding on Windows, before the core starts, whether the service or a
//! sidecar runs it.

use super::decisions::{
    requires_extended_service_wait, service_controls_startup, should_disable_tun_for_sidecar,
    should_wait_for_service_ownership, sidecar_fallback_is_safe,
};
use super::CoreManager;
use crate::clock::{after, moment_after};
use crate::error::{in_context, note_error, CoreError, Failure, Note};
use crate::service::status::ServiceStatusSnapshot;
use vstd::prelude::*;

verus! {

/// How long a start waits for the service, in milliseconds.
#[derive(Debug, Clone, Copy, PartialEq, Eq, Structural)]
pub struct OwnershipTiming {
    /// The wait where the service is needed, or there are signs of it.
    pub wait_max: u64,
    /// The wait where nothing hints at the service.
    pub probe_max: u64,
    /// The time between two looks at the service.
    pub interval: u64,
}

/// What a start wants.
#[derive(Debug, Clone, Copy, PartialEq, Eq, Structural)]
pub struct StartIntent {
    pub tun_enabled: bool,
    pub is_admin: bool,
}

/// The signs of a service, at one moment.
#[derive(Debug, Clone, Copy, PartialEq, Eq, Structural)]
pub struct ServiceSigns {
    pub now: u64,
    pub ipc_present: bool,
    /// Whether a process is there that owns the service.
    pub owner_present: bool,
    /// Whether the Service Control Manager is known to allow a sidecar.
    pub scm_allows_sidecar: bool,
}

/// What decides whether a sidecar could meet another core.
#[derive(Debug, Clone, Copy, PartialEq, Eq, Structural)]
pub struct SidecarSafety {
    pub ipc_present: bool,
    pub upgrade_pending: bool,
    pub controller_present: bool,
    /// Whether the Service Control Manager is known to allow a sidecar.
    pub scm_allows_sidecar: bool,
}

impl SidecarSafety {
    /// Whether nothing hints at another core.
    pub open spec fn safe(self) -> bool {
        !self.ipc_present && !self.upgrade_pending && !self.controller_present
            && self.scm_allows_sidecar
    }

    /// Whether nothing hints at another core.
    pub fn is_safe(&self) -> (r: bool)
        ensures
            r == self.safe(),
    {
        sidecar_fallback_is_safe(
            self.ipc_present,
            self.upgrade_pending,
            self.controller_present,
            self.scm_allows_sidecar,
        )
    }
}

/// Where getting hold of the lease on the core stands.
#[derive(Debug, Clone, Copy, PartialEq, Eq, Structural)]
pub enum LeaseFlow {
    /// A first try is made.
    Trying,
    /// Another process holds the lease; the service is being asked whether it
    /// is that process.
    Probing { deadline: u64 },
    /// It is not; what else speaks against a sidecar is being looked at.
    CheckingSafety { deadline: u64 },
    /// Nothing does, and another try is made.
    Retrying { deadline: u64 },
    /// It is not time for another try yet.
    Pausing { deadline: u64 },
    Finished,
}

/// What comes back from outside.
#[derive(Debug)]
pub enum LeaseEvent {
    /// A try got the lease, or found it held, at this moment.
    Tried { acquired: Result<bool, Failure>, now: u64 },
    Probed(Result<ServiceStatusSnapshot, CoreError>),
    Safety(SidecarSafety),
    Slept,
}

/// What to do next. The result says whether the lease was acquired; where it
/// was not, the service runs the core.
#[derive(Debug)]
pub enum LeaseAction {
    TryAcquire,
    ProbeService,
    CheckSafety,
    Sleep { interval: u64 },
    Finish(Result<bool, CoreError>),
    Ignore,
}

/// Whether the service, as a probe shows it, runs the core at startup.
pub open spec fn service_in_control(probe: Result<ServiceStatusSnapshot, CoreError>) -> bool {
    probe is Ok
}

/// Where getting hold of the lease goes from `flow` on `event`.
pub open spec fn lease_next(timing: OwnershipTiming, flow: LeaseFlow, event: LeaseEvent) -> (
    LeaseFlow,
    LeaseAction,
) {
    match (flow, event) {
        (LeaseFlow::Trying, LeaseEvent::Tried { acquired, now }) => match acquired {
            Err(failure) => (
                LeaseFlow::Finished,
                LeaseAction::Finish(Err(CoreError::Outside(failure).within(Note::AcquireLease))),
            ),
            Ok(true) => (LeaseFlow::Finished, LeaseAction::Finish(Ok(true))),
            Ok(false) => (
                LeaseFlow::Probing { deadline: moment_after(now, timing.wait_max) },
                LeaseAction::ProbeService,
            ),
        },
        (LeaseFlow::Probing { deadline }, LeaseEvent::Probed(probe)) => if service_in_control(
            probe,
        ) {
            (LeaseFlow::Finished, LeaseAction::Finish(Ok(false)))
        } else {
            (LeaseFlow::CheckingSafety { deadline }, LeaseAction::CheckSafety)
        },
        (LeaseFlow::CheckingSafety { deadline }, LeaseEvent::Safety(safety)) => if safety.safe() {
            (LeaseFlow::Retrying { deadline }, LeaseAction::TryAcquire)
        } else {
            (
                LeaseFlow::Finished,
                LeaseAction::Finish(Err(CoreError::of(Note::UnsafeSidecar))),
            )
        },
        (LeaseFlow::Retrying { deadline }, LeaseEvent::Tried { acquired, now }) => match acquired {
            Err(failure) => (
                LeaseFlow::Finished,
                LeaseAction::Finish(Err(CoreError::Outside(failure).within(Note::RecheckLease))),
            ),
            Ok(true) => (LeaseFlow::Finished, LeaseAction::Finish(Ok(true))),
            Ok(false) => if now < deadline {
                (
                    LeaseFlow::Pausing { deadline },
                    LeaseAction::Sleep { interval: timing.interval },
                )
            } else {
                (
                    LeaseFlow::Finished,
                    LeaseAction::Finish(Err(CoreError::of(Note::LeaseRetained))),
                )
            },
        },
        (LeaseFlow::Pausing { deadline }, LeaseEvent::Slept) => (
            LeaseFlow::Probing { deadline },
            LeaseAction::ProbeService,
        ),
        (flow, _) => (flow, LeaseAction::Ignore),
    }
}

/// Begins to get hold of the lease on the core.
pub fn acquire_startup_core_owner() -> (r: (LeaseFlow, LeaseAction))
    ensures
        r == (LeaseFlow::Trying, LeaseAction::TryAcquire),
{
    (LeaseFlow::Trying, LeaseAction::TryAcquire)
}

/// Takes getting hold of the lease one event further.
pub fn lease_step(timing: &OwnershipTiming, flow: LeaseFlow, event: LeaseEvent) -> (r: (
    LeaseFlow,
    LeaseAction,
))
    ensures
        r == lease_next(*timing, flow, event),
{
    match (flow, event) {
        (LeaseFlow::Trying, LeaseEvent::Tried { acquired, now }) => match acquired {
            Err(failure) => (
                LeaseFlow::Finished,
                LeaseAction::Finish(
                    Err(in_context(CoreError::Outside(failure), Note::AcquireLease)),
                ),
            ),
            Ok(true) => (LeaseFlow::Finished, LeaseAction::Finish(Ok(true))),
            Ok(false) => (
                LeaseFlow::Probing { deadline: after(now, timing.wait_max) },
                LeaseAction::ProbeService,
            ),
        },
        (LeaseFlow::Probing { deadline }, LeaseEvent::Probed(probe)) => {
            let (live, confirmed) = match probe {
                Ok(status) => (true, status.core_pid.is_some() || status.core_owner_held),
                Err(_) => (false, false),
            };
            if service_controls_startup(live, confirmed) {
                (LeaseFlow::Finished, LeaseAction::Finish(Ok(false)))
            } else {
                (LeaseFlow::CheckingSafety { deadline }, LeaseAction::CheckSafety)
            }
        },
        (LeaseFlow::CheckingSafety { deadline }, LeaseEvent::Safety(safety)) => {
            if safety.is_safe() {
                (LeaseFlow::Retrying { deadline }, LeaseAction::TryAcquire)
            } else {
                (
                    LeaseFlow::Finished,
                    LeaseAction::Finish(Err(note_error(Note::UnsafeSidecar))),
                )
            }
        },
        (LeaseFlow::Retrying { deadline }, LeaseEvent::Tried { acquired, now }) => match acquired {
            Err(failure) => (
                LeaseFlow::Finished,
                LeaseAction::Finish(
                    Err(in_context(CoreError::Outside(failure), Note::RecheckLease)),
                ),
            ),
            Ok(true) => (LeaseFlow::Finished, LeaseAction::Finish(Ok(true))),
            Ok(false) => if now < deadline {
                (
                    LeaseFlow::Pausing { deadline },
                    LeaseAction::Sleep { interval: timing.interval },
                )
            } else {
                (
                    LeaseFlow::Finished,
                    LeaseAction::Finish(Err(note_error(Note::LeaseRetained))),
                )
            },
        },
        (LeaseFlow::Pausing { deadline }, LeaseEvent::Slept) => (
            LeaseFlow::Probing { deadline },
            LeaseAction::ProbeService,
        ),
        (flow, _) => (flow, LeaseAction::Ignore),
    }
}

/// What a start has prepared: the service runs the core, unless the lease on
/// the core is held for a sidecar.
#[derive(Debug, Clone, Copy, PartialEq, Eq, Structural)]
pub struct WindowsStartupPreparation {
    pub sidecar_owner: bool,
    /// Whether the sidecar's Run file has TUN turned off for this session.
    pub tun_fallback: bool,
}

/// Where deciding who runs the core stands.
#[derive(Debug)]
pub enum OwnershipFlow {
    /// The maintenance of the service is being scheduled, and signs of the
    /// service are being looked for.
    Scheduling { intent: StartIntent },
    /// The service is being asked; until `deadline` it is asked again, and
    /// signs of it move `deadline` to `full_deadline`.
    Probing { deadline: u64, full_deadline: u64 },
    /// It did not answer, and signs of it are being looked for.
    Looking { deadline: u64, full_deadline: u64 },
    /// It is not time to ask again yet.
    Pausing { deadline: u64, full_deadline: u64 },
    /// The wait is over and the service is being asked once more.
    ProbingAtDeadline,
    /// It gave `error`, and what else speaks against a sidecar is looked at.
    CheckingSafety { error: CoreError },
    /// Nothing does, and the lease is being acquired.
    Acquiring,
    /// The lease is held, and the service is asked a last time.
    ProbingWithLease,
    /// It gave `error`, and what else speaks against a sidecar is looked at.
    RecheckingSafety { error: CoreError },
    /// Nothing does, and what the start wants is read again.
    ReadingIntent,
    Finished,
}

/// What comes back from outside.
#[derive(Debug)]
pub enum OwnershipEvent {
    Probed(Result<ServiceStatusSnapshot, CoreError>),
    Signs(ServiceSigns),
    Slept,
    Safety(SidecarSafety),
    /// Whether the lease was acquired.
    Acquired(Result<bool, CoreError>),
    Intent(StartIntent),
}

/// What to do next. A lease that was acquired is given back with a `Finish`
/// whose preparation does not hold it.
#[derive(Debug)]
pub enum OwnershipAction {
    /// To schedule the maintenance of the service, if it has not been, and then
    /// to look for signs of the service.
    ScheduleMaintenance,
    ProbeService,
    LookForSigns,
    SleepUntil { moment: u64 },
    CheckSafety,
    AcquireLease,
    ReadIntent,
    Finish(Result<WindowsStartupPreparation, CoreError>),
    Ignore,
}

/// The preparation of a start in which the service runs the core.
pub open spec fn service_start() -> WindowsStartupPreparation {
    WindowsStartupPreparation { sidecar_owner: false, tun_fallback: false }
}

/// The deadline of a wait that begins with these signs.
pub open spec fn first_deadline(
    timing: OwnershipTiming,
    intent: StartIntent,
    signs: ServiceSigns,
) -> u64 {
    if (intent.tun_enabled && !intent.is_admin) || signs.ipc_present || signs.owner_present
        || !signs.scm_allows_sidecar {
        moment_after(signs.now, timing.wait_max)
    } else {
        moment_after(signs.now, timing.probe_max)
    }
}

/// The deadline once these signs have been seen during the wait.
pub open spec fn seen_deadline(deadline: u64, full_deadline: u64, signs: ServiceSigns) -> u64 {
    if signs.owner_present || signs.ipc_present || !signs.scm_allows_sidecar {
        full_deadline
    } else {
        deadline
    }
}

/// When the service is asked again: after the interval, at the deadline at the
/// latest.
pub open spec fn next_probe(timing: OwnershipTiming, now: u64, deadline: u64) -> u64 {
    if moment_after(now, timing.interval) <= deadline {
        moment_after(now, timing.interval)
    } else {
        deadline
    }
}

impl CoreManager {
    /// Where deciding who runs the core goes from `flow` on `event`.
    pub open spec fn ownership_next(
        self,
        timing: OwnershipTiming,
        flow: OwnershipFlow,
        event: OwnershipEvent,
    ) -> (Self, OwnershipFlow, OwnershipAction) {
        match (flow, event) {
            (OwnershipFlow::Scheduling { intent }, OwnershipEvent::Signs(signs)) => (
                self,
                OwnershipFlow::Probing {
                    deadline: first_deadline(timing, intent, signs),
                    full_deadline: moment_after(signs.now, timing.wait_max),
                },
                OwnershipAction::ProbeService,
            ),
            (
                OwnershipFlow::Probing { deadline, full_deadline },
                OwnershipEvent::Probed(probe),
            ) => match probe {
                Ok(_) => (
                    self,
                    OwnershipFlow::Finished,
                    OwnershipAction::Finish(Ok(service_start())),
                ),
                Err(_) => (
                    self,
                    OwnershipFlow::Looking { deadline, full_deadline },
                    OwnershipAction::LookForSigns,
                ),
            },
            (
                OwnershipFlow::Looking { deadline, full_deadline },
                OwnershipEvent::Signs(signs),
            ) => if signs.now < deadline {
                let seen = seen_deadline(deadline, full_deadline, signs);
                (
                    self,
                    OwnershipFlow::Pausing { deadline: seen, full_deadline },
                    OwnershipAction::SleepUntil { moment: next_probe(timing, signs.now, seen) },
                )
            } else {
                (self, OwnershipFlow::ProbingAtDeadline, OwnershipAction::ProbeService)
            },
            (OwnershipFlow::Pausing { deadline, full_deadline }, OwnershipEvent::Slept) => (
                self,
                OwnershipFlow::Probing { deadline, full_deadline },
                OwnershipAction::ProbeService,
            ),
            (OwnershipFlow::ProbingAtDeadline, OwnershipEvent::Probed(probe)) => match probe {
                Ok(_) => (
                    self,
                    OwnershipFlow::Finished,
                    OwnershipAction::Finish(Ok(service_start())),
                ),
                Err(error) => (
                    self,
                    OwnershipFlow::CheckingSafety { error },
                    OwnershipAction::CheckSafety,
                ),
            },
            (OwnershipFlow::CheckingSafety { error }, OwnershipEvent::Safety(safety)) => {
                if safety.safe() {
                    (self, OwnershipFlow::Acquiring, OwnershipAction::AcquireLease)
                } else {
                    (
                        self,
                        OwnershipFlow::Finished,
                        OwnershipAction::Finish(Err(error.within(Note::UnsafeSidecar))),
                    )
                }
            },
            (OwnershipFlow::Acquiring, OwnershipEvent::Acquired(acquired)) => match acquired {
                Err(error) => (
                    self,
                    OwnershipFlow::Finished,
                    OwnershipAction::Finish(Err(error)),
                ),
                Ok(false) => (
                    self,
                    OwnershipFlow::Finished,
                    OwnershipAction::Finish(Ok(service_start())),
                ),
                Ok(true) => (
                    self,
                    OwnershipFlow::ProbingWithLease,
                    OwnershipAction::ProbeService,
                ),
            },
            (OwnershipFlow::ProbingWithLease, OwnershipEvent::Probed(probe)) => match probe {
                Ok(_) => (
                    self,
                    OwnershipFlow::Finished,
                    OwnershipAction::Finish(Ok(service_start())),
                ),
                Err(error) => (
                    self,
                    OwnershipFlow::RecheckingSafety { error },
                    OwnershipAction::CheckSafety,
                ),
            },
            (OwnershipFlow::RecheckingSafety { error }, OwnershipEvent::Safety(safety)) => {
                if safety.safe() {
                    (self, OwnershipFlow::ReadingIntent, OwnershipAction::ReadIntent)
                } else {
                    (
                        self,
                        OwnershipFlow::Finished,
                        OwnershipAction::Finish(Err(error.within(Note::StateChanged))),
                    )
                }
            },
            (OwnershipFlow::ReadingIntent, OwnershipEvent::Intent(intent)) => {
                let fallback = intent.tun_enabled && !intent.is_admin;
                (
                    if fallback {
                        self.with_tun_fallback(true)
                    } else {
                        self
                    },
                    OwnershipFlow::Finished,
                    OwnershipAction::Finish(
                        Ok(
                            WindowsStartupPreparation {
                                sidecar_owner: true,
                                tun_fallback: fallback,
                            },
                        ),
                    ),
                )
            },
            (flow, _) => (self, flow, OwnershipAction::Ignore),
        }
    }

    /// Begins to decide who runs the core. A TUN fallback left from an earlier
    /// start is turned off, and the maintenance of the service is seen to first.
    pub fn wait_for_initial_service_ownership(&mut self, intent: StartIntent) -> (r: (
        OwnershipFlow,
        OwnershipAction,
    ))
        ensures
            *final(self) == old(self).with_tun_fallback(false),
            r == (
                (OwnershipFlow::Scheduling { intent }),
                OwnershipAction::ScheduleMaintenance,
            ),
    {
        self.set_windows_sidecar_tun_fallback_active(false);
        (OwnershipFlow::Scheduling { intent }, OwnershipAction::ScheduleMaintenance)
    }

    /// Takes deciding who runs the core one event further.
    pub fn ownership_step(
        &mut self,
        timing: &OwnershipTiming,
        flow: OwnershipFlow,
        event: OwnershipEvent,
    ) -> (r: (OwnershipFlow, OwnershipAction))
        ensures
            (*final(self), r.0, r.1) == old(self).ownership_next(*timing, flow, event),
    {
        match (flow, event) {
            (OwnershipFlow::Scheduling { intent }, OwnershipEvent::Signs(signs)) => {
                let full_deadline: u64 = after(signs.now, timing.wait_max);
                let deadline: u64 = if requires_extended_service_wait(
                    intent.tun_enabled,
                    intent.is_admin,
                    signs.ipc_present,
                    signs.owner_present || !signs.scm_allows_sidecar,
                ) {
                    full_deadline
                } else {
                    after(signs.now, timing.probe_max)
                };
                (OwnershipFlow::Probing { deadline, full_deadline }, OwnershipAction::ProbeService)
            },
            (
                OwnershipFlow::Probing { deadline, full_deadline },
                OwnershipEvent::Probed(probe),
            ) => {
                if should_wait_for_service_ownership(probe.is_ok()) {
                    (
                        OwnershipFlow::Looking { deadline, full_deadline },
                        OwnershipAction::LookForSigns,
                    )
                } else {
                    service_runs_the_core()
                }
            },
            (
                OwnershipFlow::Looking { deadline, full_deadline },
                OwnershipEvent::Signs(signs),
            ) => {
                if signs.now >= deadline {
                    return (OwnershipFlow::ProbingAtDeadline, OwnershipAction::ProbeService);
                }
                let seen: u64 = if deadline != full_deadline && (signs.owner_present
                    || signs.ipc_present || !signs.scm_allows_sidecar) {
                    full_deadline
                } else {
                    deadline
                };
                let next: u64 = after(signs.now, timing.interval);
                let moment: u64 = if next <= seen {
                    next
                } else {
                    seen
                };
                (
                    OwnershipFlow::Pausing { deadline: seen, full_deadline },
                    OwnershipAction::SleepUntil { moment },
                )
            },
            (OwnershipFlow::Pausing { deadline, full_deadline }, OwnershipEvent::Slept) => (
                OwnershipFlow::Probing { deadline, full_deadline },
                OwnershipAction::ProbeService,
            ),
            (OwnershipFlow::ProbingAtDeadline, OwnershipEvent::Probed(probe)) => match probe {
                Ok(_) => service_runs_the_core(),
                Err(error) => (
                    OwnershipFlow::CheckingSafety { error },
                    OwnershipAction::CheckSafety,
                ),
            },
            (OwnershipFlow::CheckingSafety { error }, OwnershipEvent::Safety(safety)) => {
                if safety.is_safe() {
                    (OwnershipFlow::Acquiring, OwnershipAction::AcquireLease)
                } else {
                    (
                        OwnershipFlow::Finished,
                        OwnershipAction::Finish(Err(in_context(error, Note::UnsafeSidecar))),
                    )
                }
            },
            (OwnershipFlow::Acquiring, OwnershipEvent::Acquired(acquired)) => match acquired {
                Err(error) => (OwnershipFlow::Finished, OwnershipAction::Finish(Err(error))),
                Ok(false) => service_runs_the_core(),
                Ok(true) => (OwnershipFlow::ProbingWithLease, OwnershipAction::ProbeService),
            },
            (OwnershipFlow::ProbingWithLease, OwnershipEvent::Probed(probe)) => match probe {
                Ok(_) => service_runs_the_core(),
                Err(error) => (
                    OwnershipFlow::RecheckingSafety { error },
                    OwnershipAction::CheckSafety,
                ),
            },
            (OwnershipFlow::RecheckingSafety { error }, OwnershipEvent::Safety(safety)) => {
                if safety.is_safe() {
                    (OwnershipFlow::ReadingIntent, OwnershipAction::ReadIntent)
                } else {
                    (
                        OwnershipFlow::Finished,
                        OwnershipAction::Finish(Err(in_context(error, Note::StateChanged))),
                    )
                }
            },
            (OwnershipFlow::ReadingIntent, OwnershipEvent::Intent(intent)) => {
                let tun_fallback = should_disable_tun_for_sidecar(
                    intent.tun_enabled,
                    false,
                    intent.is_admin,
                );
                if tun_fallback {
                    self.set_windows_sidecar_tun_fallback_active(true);
                }
                (
                    OwnershipFlow::Finished,
                    OwnershipAction::Finish(
                        Ok(WindowsStartupPreparation { sidecar_owner: true, tun_fallback }),
                    ),
                )
            },
            (flow, _) => (flow, OwnershipAction::Ignore),
        }
    }
}

fn service_runs_the_core() -> (r: (OwnershipFlow, OwnershipAction))
    ensures
        r == (OwnershipFlow::Finished, OwnershipAction::Finish(Ok(service_start()))),
{
    (
        OwnershipFlow::Finished,
        OwnershipAction::Finish(
            Ok(WindowsStartupPreparation { sidecar_owner: false, tun_fallback: false }),
        ),
    )
}

} // verus!
