//! What holds of deciding who runs the core, and of the lease on it, as a
//! whole.

use super::ownership::{
    lease_next, LeaseAction, LeaseEvent, LeaseFlow, OwnershipAction, OwnershipEvent, OwnershipFlow,
    OwnershipTiming, ServiceSigns, SidecarSafety, StartIntent,
};
use super::CoreManager;
use crate::error::{CoreError, Message, Note};
use vstd::prelude::*;

verus! {

/// A sidecar is safe only where nothing at all hints at another core: no
/// endpoint of a service, no service of another version, no controller of a
/// core, and a Service Control Manager that is known to allow it.
pub proof fn law_every_hint_makes_a_sidecar_unsafe(safety: SidecarSafety)
    ensures
        safety.ipc_present ==> !safety.safe(),
        safety.upgrade_pending ==> !safety.safe(),
        safety.controller_present ==> !safety.safe(),
        !safety.scm_allows_sidecar ==> !safety.safe(),
        safety.safe() || safety.ipc_present || safety.upgrade_pending
            || safety.controller_present || !safety.scm_allows_sidecar,
{
}

/// A wait for the service begins with a probe. It is a long one where TUN needs
/// the service, or anything hints at it, and a short one otherwise.
pub proof fn law_wait_is_long_where_the_service_matters(
    manager: CoreManager,
    timing: OwnershipTiming,
    intent: StartIntent,
    signs: ServiceSigns,
)
    requires
        signs.now + timing.wait_max <= u64::MAX,
        signs.now + timing.probe_max <= u64::MAX,
    ensures
        ({
            let next = manager.ownership_next(
                timing,
                OwnershipFlow::Scheduling { intent },
                OwnershipEvent::Signs(signs),
            );
            let needed = intent.tun_enabled && !intent.is_admin;
            let hinted = signs.ipc_present || signs.owner_present || !signs.scm_allows_sidecar;
            &&& next.0 == manager
            &&& next.2 is ProbeService
            &&& next.1 matches OwnershipFlow::Probing { deadline, full_deadline }
            &&& full_deadline == signs.now + timing.wait_max
            &&& needed || hinted ==> deadline == signs.now + timing.wait_max
            &&& !needed && !hinted ==> deadline == signs.now + timing.probe_max
        }),
{
}

/// While the deadline of a wait lies ahead the service is asked again, after
/// the interval and at the deadline at the latest; anything that hints at the
/// service makes the wait a long one. Once the deadline is past, the service is
/// asked a last time.
pub proof fn law_wait_asks_again_until_its_deadline(
    manager: CoreManager,
    timing: OwnershipTiming,
    deadline: u64,
    full_deadline: u64,
    signs: ServiceSigns,
)
    requires
        signs.now + timing.interval <= u64::MAX,
    ensures
        ({
            let next = manager.ownership_next(
                timing,
                OwnershipFlow::Looking { deadline, full_deadline },
                OwnershipEvent::Signs(signs),
            );
            let hinted = signs.ipc_present || signs.owner_present || !signs.scm_allows_sidecar;
            &&& next.0 == manager
            &&& signs.now >= deadline ==> next.1 is ProbingAtDeadline && next.2 is ProbeService
            &&& signs.now < deadline ==> {
                &&& next.1 matches OwnershipFlow::Pausing { deadline: later, full_deadline: full }
                &&& full == full_deadline
                &&& later == if hinted { full_deadline } else { deadline }
                &&& next.2 matches OwnershipAction::SleepUntil { moment }
                &&& moment <= later && moment <= signs.now + timing.interval
                &&& moment == later || moment == signs.now + timing.interval
            }
        }),
{
}

/// What deciding who runs the core does, it does for a reason: for each thing
/// that it asks for, where it stood, what came in, and how it goes on.
pub proof fn law_decision_acts_for_a_reason(
    manager: CoreManager,
    timing: OwnershipTiming,
    flow: OwnershipFlow,
    event: OwnershipEvent,
)
    ensures
        ({
            let next = manager.ownership_next(timing, flow, event);
            match next.2 {
                OwnershipAction::ScheduleMaintenance => false,
                OwnershipAction::ProbeService => {
                    &&& next.0 == manager
                    &&& match flow {
                        OwnershipFlow::Scheduling { .. } => event is Signs && next.1 is Probing,
                        OwnershipFlow::Looking { deadline, .. } => event is Signs
                            && event->Signs_0.now >= deadline && next.1 is ProbingAtDeadline,
                        OwnershipFlow::Pausing { deadline, full_deadline } => event is Slept
                            && next.1 == OwnershipFlow::Probing { deadline, full_deadline },
                        OwnershipFlow::Acquiring => event is Acquired && event->Acquired_0 == Ok::<
                            bool,
                            CoreError,
                        >(true) && next.1 is ProbingWithLease,
                        _ => false,
                    }
                },
                OwnershipAction::LookForSigns => {
                    &&& flow matches OwnershipFlow::Probing { deadline, full_deadline }
                    &&& event matches OwnershipEvent::Probed(Err(_))
                    &&& next.1 == OwnershipFlow::Looking { deadline, full_deadline }
                    &&& next.0 == manager
                },
                OwnershipAction::SleepUntil { .. } => {
                    &&& flow matches OwnershipFlow::Looking { deadline, .. }
                    &&& event matches OwnershipEvent::Signs(signs)
                    &&& signs.now < deadline
                    &&& next.1 is Pausing && next.0 == manager
                },
                OwnershipAction::CheckSafety => {
                    &&& event matches OwnershipEvent::Probed(Err(error))
                    &&& next.0 == manager
                    &&& flow is ProbingAtDeadline && next.1 == (OwnershipFlow::CheckingSafety {
                        error,
                    }) || flow is ProbingWithLease && next.1 == (OwnershipFlow::RecheckingSafety {
                        error,
                    })
                },
                OwnershipAction::AcquireLease => {
                    &&& flow is CheckingSafety && event is Safety
                    &&& nothing_hints(event->Safety_0)
                    &&& next.1 is Acquiring && next.0 == manager
                },
                OwnershipAction::ReadIntent => {
                    &&& flow is RecheckingSafety && event is Safety
                    &&& nothing_hints(event->Safety_0)
                    &&& next.1 is ReadingIntent && next.0 == manager
                },
                OwnershipAction::Finish(Ok(startup)) => {
                    &&& next.1 is Finished
                    &&& startup.sidecar_owner ==> {
                        &&& flow is ReadingIntent
                        &&& event matches OwnershipEvent::Intent(intent)
                        &&& startup.tun_fallback <==> intent.tun_enabled && !intent.is_admin
                        &&& next.0 == CoreManager {
                            windows_sidecar_tun_fallback_active:
                                manager.windows_sidecar_tun_fallback_active
                                || startup.tun_fallback,
                            ..manager
                        }
                    }
                    &&& !startup.sidecar_owner ==> {
                        &&& !startup.tun_fallback && next.0 == manager
                        &&& match event {
                            OwnershipEvent::Probed(probe) => probe is Ok && (flow is Probing
                                || flow is ProbingAtDeadline || flow is ProbingWithLease),
                            OwnershipEvent::Acquired(acquired) => flow is Acquiring && acquired
                                == Ok::<bool, CoreError>(false),
                            _ => false,
                        }
                    }
                },
                OwnershipAction::Finish(Err(error)) => {
                    &&& next.1 is Finished && next.0 == manager
                    &&& match flow {
                        OwnershipFlow::CheckingSafety { error: cause } => event is Safety
                            && !nothing_hints(event->Safety_0) && error == CoreError::Context(
                            Message::Note(Note::UnsafeSidecar),
                            Box::new(cause),
                        ),
                        OwnershipFlow::RecheckingSafety { error: cause } => event is Safety
                            && !nothing_hints(event->Safety_0) && error == CoreError::Context(
                            Message::Note(Note::StateChanged),
                            Box::new(cause),
                        ),
                        OwnershipFlow::Acquiring => event == OwnershipEvent::Acquired(Err(error)),
                        _ => false,
                    }
                },
                OwnershipAction::Ignore => {
                    &&& next.0 == manager && next.1 == flow
                    &&& !(flow is Scheduling && event is Signs)
                    &&& !(flow is Looking && event is Signs)
                    &&& !(flow is Pausing && event is Slept)
                    &&& !((flow is Probing || flow is ProbingAtDeadline || flow is ProbingWithLease)
                        && event is Probed)
                    &&& !((flow is CheckingSafety || flow is RecheckingSafety) && event is Safety)
                    &&& !(flow is Acquiring && event is Acquired)
                    &&& !(flow is ReadingIntent && event is Intent)
                },
            }
        }),
{
}

/// Whether nothing at all hints at another core.
pub open spec fn nothing_hints(safety: SidecarSafety) -> bool {
    !(safety.ipc_present || safety.upgrade_pending || safety.controller_present
        || !safety.scm_allows_sidecar)
}

/// What getting hold of the lease does, it does for a reason: for each thing
/// that it asks for, where it stood, what came in, and how it goes on.
pub proof fn law_lease_acts_for_a_reason(
    timing: OwnershipTiming,
    flow: LeaseFlow,
    event: LeaseEvent,
)
    ensures
        ({
            let next = lease_next(timing, flow, event);
            match next.1 {
                LeaseAction::TryAcquire => {
                    &&& flow matches LeaseFlow::CheckingSafety { deadline }
                    &&& event is Safety && nothing_hints(event->Safety_0)
                    &&& next.0 == LeaseFlow::Retrying { deadline }
                },
                LeaseAction::ProbeService => match flow {
                    LeaseFlow::Trying => {
                        &&& event matches LeaseEvent::Tried { acquired: Ok(false), now }
                        &&& next.0 matches LeaseFlow::Probing { deadline }
                        &&& now + timing.wait_max <= u64::MAX ==> deadline == now
                            + timing.wait_max
                    },
                    LeaseFlow::Pausing { deadline } => event is Slept && next.0
                        == (LeaseFlow::Probing { deadline }),
                    _ => false,
                },
                LeaseAction::CheckSafety => {
                    &&& flow matches LeaseFlow::Probing { deadline }
                    &&& event matches LeaseEvent::Probed(Err(_))
                    &&& next.0 == LeaseFlow::CheckingSafety { deadline }
                },
                LeaseAction::Sleep { interval } => {
                    &&& flow matches LeaseFlow::Retrying { deadline }
                    &&& event matches LeaseEvent::Tried { acquired: Ok(false), now }
                    &&& now < deadline && interval == timing.interval
                    &&& next.0 == LeaseFlow::Pausing { deadline }
                },
                LeaseAction::Finish(Ok(acquired)) => {
                    &&& next.0 is Finished
                    &&& if acquired {
                        (flow is Trying || flow is Retrying) && event is Tried && event->acquired
                            is Ok && event->acquired->Ok_0
                    } else {
                        flow is Probing && event is Probed && event->Probed_0 is Ok
                    }
                },
                LeaseAction::Finish(Err(error)) => {
                    &&& next.0 is Finished
                    &&& match (flow, event) {
                        (LeaseFlow::Trying, LeaseEvent::Tried { acquired: Err(failure), .. }) => error
                            == CoreError::Context(
                            Message::Note(Note::AcquireLease),
                            Box::new(CoreError::Outside(failure)),
                        ),
                        (
                            LeaseFlow::Retrying { .. },
                            LeaseEvent::Tried { acquired: Err(failure), .. },
                        ) => error == CoreError::Context(
                            Message::Note(Note::RecheckLease),
                            Box::new(CoreError::Outside(failure)),
                        ),
                        (
                            LeaseFlow::Retrying { deadline },
                            LeaseEvent::Tried { acquired: Ok(acquired), now },
                        ) => !acquired && now >= deadline && error == CoreError::Plain(
                            Message::Note(Note::LeaseRetained),
                        ),
                        (LeaseFlow::CheckingSafety { .. }, LeaseEvent::Safety(safety)) => {
                            &&& !nothing_hints(safety)
                            &&& error == CoreError::Plain(Message::Note(Note::UnsafeSidecar))
                        },
                        _ => false,
                    }
                },
                LeaseAction::Ignore => {
                    &&& next.0 == flow
                    &&& !((flow is Trying || flow is Retrying) && event is Tried)
                    &&& !(flow is Probing && event is Probed)
                    &&& !(flow is CheckingSafety && event is Safety)
                    &&& !(flow is Pausing && event is Slept)
                },
            }
        }),
{
}

} // verus!
