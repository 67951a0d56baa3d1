//! What holds of starting the core as a whole.

use super::ownership::{
    lease_next, LeaseAction, LeaseEvent, LeaseFlow, OwnershipAction, OwnershipEvent, OwnershipFlow,
    OwnershipTiming,
};
use super::startup::{StartAction, StartEvent, StartFlow};
use super::{CoreManager, RunningMode};
use crate::error::{CoreError, Note};
use vstd::prelude::*;

verus! {

/// A start does nothing while a core runs, or once the application is about to
/// exit; it succeeds all the same.
pub proof fn law_start_is_idle_while_a_core_runs(manager: CoreManager, exiting: bool)
    requires
        exiting || !(manager.running_mode is NotRunning),
    ensures
        ({
            let next = manager.start_next(StartFlow::CheckingExit, StartEvent::Exiting(exiting));
            &&& next.0 == manager
            &&& next.1 is Finished
            &&& next.2 matches StartAction::Finish { result, reported, watch }
            &&& result is Ok && reported is None && !watch
        }),
{
}

/// A start that fails leaves no core running, unless the service that was
/// asked to start it says that it does.
pub proof fn law_failed_start_leaves_no_core(
    manager: CoreManager,
    flow: StartFlow,
    event: StartEvent,
)
    ensures
        ({
            let next = manager.start_next(flow, event);
            next.2 matches StartAction::Finish { result, reported, watch } ==> {
                ||| result is Ok || reported is None
                ||| next.0.running_mode is NotRunning && reported == Some(RunningMode::NotRunning)
                ||| {
                    &&& next.0.running_mode is Service && reported == Some(RunningMode::Service)
                    &&& flow is ConfirmingService
                    &&& event is ServiceCore
                    &&& event->ServiceCore_0 == Ok::<bool, CoreError>(true)
                }
            }
        }),
{
}

/// What a start reports is the mode that it leaves behind, and a watcher is
/// asked for only where a sidecar runs.
pub proof fn law_start_reports_its_mode(manager: CoreManager, flow: StartFlow, event: StartEvent)
    ensures
        ({
            let next = manager.start_next(flow, event);
            next.2 matches StartAction::Finish { result, reported, watch } ==> {
                &&& reported is Some ==> reported == Some(next.0.running_mode)
                &&& watch ==> result is Ok && next.0.running_mode is Sidecar
            }
        }),
{
}

/// On Windows a sidecar is started only with the lease on the core.
pub proof fn law_sidecar_starts_only_with_the_lease(
    manager: CoreManager,
    flow: StartFlow,
    event: StartEvent,
)
    requires
        manager.platform is Windows,
        manager.start_next(flow, event).2 is StartBySidecar,
    ensures
        flow is RecheckingExit,
        flow->startup.sidecar_owner,
        event == StartEvent::Exiting(false),
{
}

/// The configuration is taken over only once the core has started, and with
/// TUN turned off only for a sidecar that still runs.
pub proof fn law_configuration_is_taken_over_after_success_only(
    manager: CoreManager,
    flow: StartFlow,
    event: StartEvent,
)
    requires
        manager.start_next(flow, event).2 is ApplyRuntime,
    ensures
        match flow {
            StartFlow::Starting { attempted_service, fallback } => {
                &&& !fallback
                &&& event is Started
                &&& event->Started_0 is Ok
            },
            StartFlow::Committing { attempted_service } => {
                &&& manager.windows_sidecar_tun_fallback_active
                &&& manager.sidecar_recorded()
                &&& event is SessionProbed
            },
            _ => false,
        },
{
}

/// Where a start that had TUN turned off fails, or its sidecar is gone before
/// the start is settled, TUN is not left turned off, and the Run file is
/// written as it was.
pub proof fn law_failed_fallback_is_rolled_back(
    manager: CoreManager,
    attempted_service: bool,
    error: CoreError,
    wait_status: u32,
)
    ensures
        ({
            let failed = manager.start_next(
                StartFlow::Starting { attempted_service, fallback: true },
                StartEvent::Started(Err(error)),
            );
            &&& !failed.0.windows_sidecar_tun_fallback_active
            &&& failed.2 is WriteRunFile
        }),
        !(manager.windows_sidecar_tun_fallback_active && manager.sidecar_recorded() && wait_status
            == 258) ==> {
            let gone = manager.start_next(
                StartFlow::Committing { attempted_service },
                StartEvent::SessionProbed { wait_status },
            );
            &&& !gone.0.windows_sidecar_tun_fallback_active
            &&& gone.2 is WriteRunFile
        },
{
}

/// Only the service that was asked to start the core is asked whether it runs
/// one after a failure.
pub proof fn law_only_an_asked_service_is_asked_again(
    manager: CoreManager,
    attempted_service: bool,
    fallback: bool,
    error: CoreError,
)
    requires
        !attempted_service,
    ensures
        !(manager.start_settled(attempted_service, fallback, Err(error)).2 is QueryServiceCore),
        !(manager.start_failed(attempted_service, error).2 is QueryServiceCore),
{
}

/// Whether, while `events` come in, it is decided that a sidecar runs the core.
pub open spec fn sidecar_chosen(
    manager: CoreManager,
    timing: OwnershipTiming,
    flow: OwnershipFlow,
    events: Seq<OwnershipEvent>,
) -> bool
    decreases events.len(),
{
    if events.len() == 0 {
        false
    } else {
        let next = manager.ownership_next(timing, flow, events[0]);
        ||| next.2 matches OwnershipAction::Finish(Ok(startup)) && startup.sidecar_owner
        ||| sidecar_chosen(next.0, timing, next.1, events.drop_first())
    }
}

/// Whether the lease has not been acquired when deciding stands at `flow`.
pub open spec fn before_lease(flow: OwnershipFlow) -> bool {
    !(flow is ProbingWithLease) && !(flow is RecheckingSafety) && !(flow is ReadingIntent)
}

/// A sidecar is never chosen to run the core unless the lease was acquired.
pub proof fn law_no_sidecar_without_the_lease(
    manager: CoreManager,
    timing: OwnershipTiming,
    flow: OwnershipFlow,
    events: Seq<OwnershipEvent>,
)
    requires
        before_lease(flow),
        forall|i: int|
            0 <= i < events.len() ==> !((#[trigger] events[i]) is Acquired
                && events[i]->Acquired_0 == Ok::<bool, CoreError>(true)),
    ensures
        !sidecar_chosen(manager, timing, flow, events),
    decreases events.len(),
{
    if events.len() > 0 {
        let next = manager.ownership_next(timing, flow, events[0]);
        let rest = events.drop_first();
        assert forall|i: int| 0 <= i < rest.len() implies !((#[trigger] rest[i]) is Acquired
            && rest[i]->Acquired_0 == Ok::<bool, CoreError>(true)) by {
            assert(rest[i] == events[i + 1]);
        }
        law_no_sidecar_without_the_lease(next.0, timing, next.1, rest);
    }
}

/// A sidecar is never chosen to run the core unless it was found safe after
/// the lease had been acquired.
pub proof fn law_no_sidecar_unless_safe(
    manager: CoreManager,
    timing: OwnershipTiming,
    flow: OwnershipFlow,
    events: Seq<OwnershipEvent>,
)
    requires
        !(flow is ReadingIntent),
        forall|i: int|
            0 <= i < events.len() ==> !((#[trigger] events[i]) is Safety
                && events[i]->Safety_0.safe()),
    ensures
        !sidecar_chosen(manager, timing, flow, events),
    decreases events.len(),
{
    if events.len() > 0 {
        let next = manager.ownership_next(timing, flow, events[0]);
        let rest = events.drop_first();
        assert forall|i: int| 0 <= i < rest.len() implies !((#[trigger] rest[i]) is Safety
            && rest[i]->Safety_0.safe()) by {
            assert(rest[i] == events[i + 1]);
        }
        law_no_sidecar_unless_safe(next.0, timing, next.1, rest);
    }
}

/// A service that answers runs the core: whenever it is asked and answers, no
/// sidecar is chosen.
pub proof fn law_answering_service_runs_the_core(
    manager: CoreManager,
    timing: OwnershipTiming,
    flow: OwnershipFlow,
    event: OwnershipEvent,
)
    requires
        flow is Probing || flow is ProbingAtDeadline || flow is ProbingWithLease,
        event is Probed,
        event->Probed_0 is Ok,
    ensures
        manager.ownership_next(timing, flow, event) == (
            manager,
            OwnershipFlow::Finished,
            OwnershipAction::Finish(Ok(super::ownership::service_start())),
        ),
{
}

/// TUN is turned off exactly for a sidecar that was chosen to run without it:
/// a decision leaves it as it was until the end, and says so.
pub proof fn law_decision_says_whether_tun_is_off(
    manager: CoreManager,
    timing: OwnershipTiming,
    flow: OwnershipFlow,
    event: OwnershipEvent,
)
    requires
        !manager.windows_sidecar_tun_fallback_active,
    ensures
        ({
            let next = manager.ownership_next(timing, flow, event);
            &&& next.0 == manager.with_tun_fallback(next.0.windows_sidecar_tun_fallback_active)
            &&& next.2 matches OwnershipAction::Finish(Ok(startup)) ==> {
                &&& startup.tun_fallback == next.0.windows_sidecar_tun_fallback_active
                &&& startup.tun_fallback ==> startup.sidecar_owner
            }
            &&& next.2 matches OwnershipAction::Finish(Err(_)) ==> next.0 == manager
            &&& !(next.2 is Finish) ==> next.0 == manager
        }),
{
}

/// A wait for the service ends in time: it never sleeps past its deadline, and
/// signs of the service move the deadline to the full one at most.
pub proof fn law_wait_keeps_its_deadline(
    manager: CoreManager,
    timing: OwnershipTiming,
    deadline: u64,
    full_deadline: u64,
    event: OwnershipEvent,
)
    requires
        deadline <= full_deadline,
    ensures
        ({
            let next = manager.ownership_next(
                timing,
                OwnershipFlow::Looking { deadline, full_deadline },
                event,
            );
            next.2 matches OwnershipAction::SleepUntil { moment } ==> {
                &&& moment <= full_deadline
                &&& next.1 matches OwnershipFlow::Pausing { deadline: later, full_deadline: full }
                &&& moment <= later
                &&& deadline <= later <= full_deadline
                &&& full == full_deadline
            }
        }),
{
}

/// A lease that another process holds is taken for the service's only where
/// the service answers, and is given up on only after the deadline.
pub proof fn law_contended_lease_is_not_guessed_about(
    timing: OwnershipTiming,
    flow: LeaseFlow,
    event: LeaseEvent,
)
    ensures
        lease_next(timing, flow, event).1 matches LeaseAction::Finish(result) ==> {
            &&& result == Ok::<bool, CoreError>(false) ==> flow is Probing && event is Probed
                && event->Probed_0 is Ok
            &&& result == Ok::<bool, CoreError>(true) ==> event is Tried && event->acquired == Ok::<
                bool,
                crate::error::Failure,
            >(true)
            &&& result == Err::<bool, CoreError>(
                CoreError::of(crate::error::Note::LeaseRetained),
            ) ==> flow is Retrying && event is Tried && event->now >= flow->Retrying_deadline
        },
{
}

/// A start that goes ahead follows the mode that was decided on, on every
/// platform: where the service is to run the core no sidecar is started, and
/// off Windows the service is asked at once, on Windows once the configuration
/// has been generated anew; otherwise the service is not asked, and a sidecar
/// is started wherever one may be.
pub proof fn law_start_follows_the_mode(
    manager: CoreManager,
    startup: super::ownership::WindowsStartupPreparation,
)
    ensures
        ({
            let next = manager.start_next(
                StartFlow::RecheckingExit { startup },
                StartEvent::Exiting(false),
            );
            let service = manager.running_mode is Service;
            let windows = manager.platform is Windows;
            &&& service ==> !(next.2 is StartBySidecar)
            &&& service && !windows ==> next.2 is StartByService
            &&& service && windows ==> next.2 is Generate
            &&& !service ==> !(next.2 is StartByService) && !(next.2 is Generate)
            &&& !service && !windows ==> next.2 is StartBySidecar
            &&& !service && windows ==> (next.2 is StartBySidecar <==> startup.sidecar_owner)
            &&& next.0.running_mode == manager.running_mode || next.2 is Finish
        }),
{
}

/// On Windows a core that the service is to run is asked of it right after the
/// configuration was generated anew, and not at all where that failed.
pub proof fn law_service_is_asked_after_generating(
    manager: CoreManager,
    fallback: bool,
    generated: Result<(), CoreError>,
)
    ensures
        ({
            let next = manager.start_next(
                StartFlow::Regenerating { fallback },
                StartEvent::Generated(generated),
            );
            &&& next.2 is StartByService <==> generated is Ok
            &&& !(next.2 is StartBySidecar)
            &&& generated is Ok ==> next.1 == (StartFlow::Starting {
                attempted_service: true,
                fallback,
            })
        }),
{
}

/// What a start does, it does for a reason: for each thing that it asks for,
/// where it stood, what came in, and how it goes on.
pub proof fn law_start_acts_for_a_reason(
    manager: CoreManager,
    flow: StartFlow,
    event: StartEvent,
)
    ensures
        ({
            let next = manager.start_next(flow, event);
            let service = manager.running_mode is Service;
            let windows = manager.platform is Windows;
            match next.2 {
                StartAction::PrepareStartup => {
                    &&& flow is CheckingExit && event == StartEvent::Exiting(false)
                    &&& manager.running_mode is NotRunning
                    &&& next.1 is Preparing && next.0 == manager
                },
                StartAction::QueryExiting => {
                    &&& flow is Preparing
                    &&& event matches StartEvent::Prepared(Ok(startup))
                    &&& next.1 == StartFlow::RecheckingExit { startup }
                    &&& next.0 == manager
                },
                StartAction::Generate => {
                    &&& flow matches StartFlow::RecheckingExit { startup }
                    &&& event == StartEvent::Exiting(false) && service && windows
                    &&& next.1 == StartFlow::Regenerating { fallback: startup.tun_fallback }
                    &&& next.0 == manager
                },
                StartAction::StartByService => {
                    &&& next.0 == manager
                    &&& flow is RecheckingExit || flow is Regenerating
                    &&& flow is RecheckingExit ==> {
                        &&& event == StartEvent::Exiting(false) && service && !windows
                        &&& next.1 == StartFlow::Starting {
                            attempted_service: false,
                            fallback: false,
                        }
                    }
                    &&& flow matches StartFlow::Regenerating { fallback } ==> {
                        &&& event matches StartEvent::Generated(Ok(_))
                        &&& next.1 == StartFlow::Starting { attempted_service: true, fallback }
                    }
                },
                StartAction::StartBySidecar => {
                    &&& flow matches StartFlow::RecheckingExit { startup }
                    &&& event == StartEvent::Exiting(false) && !service
                    &&& windows ==> startup.sidecar_owner
                    &&& next.1 == StartFlow::Starting {
                        attempted_service: false,
                        fallback: windows && startup.tun_fallback,
                    }
                    &&& next.0 == manager
                },
                StartAction::ProbeSession => {
                    &&& flow matches StartFlow::Starting { attempted_service, fallback }
                    &&& fallback
                    &&& event matches StartEvent::Started(Ok(_))
                    &&& next.1 == StartFlow::Committing { attempted_service }
                    &&& next.0 == manager
                },
                StartAction::ApplyRuntime => {
                    &&& next.1 is Applying && next.0 == manager
                    &&& flow is Starting || flow is Committing
                    &&& flow matches StartFlow::Starting { attempted_service, fallback } ==> {
                        &&& !fallback
                        &&& event matches StartEvent::Started(Ok(_))
                    }
                    &&& flow is Committing ==> {
                        &&& event == StartEvent::SessionProbed { wait_status: 258 }
                        &&& manager.windows_sidecar_tun_fallback_active
                        &&& manager.sidecar_recorded()
                    }
                },
                StartAction::WriteRunFile => {
                    &&& next.0 == CoreManager {
                        windows_sidecar_tun_fallback_active: false,
                        ..manager
                    }
                    &&& match next.1 {
                        StartFlow::UndoingForExit => {
                            &&& flow matches StartFlow::RecheckingExit { startup }
                            &&& event == StartEvent::Exiting(true)
                            &&& windows && startup.tun_fallback
                        },
                        StartFlow::RestoringRunFile { attempted_service } => {
                            &&& flow == StartFlow::Committing { attempted_service }
                            &&& event matches StartEvent::SessionProbed { wait_status }
                            &&& !(manager.windows_sidecar_tun_fallback_active
                                && manager.sidecar_recorded() && wait_status == 258)
                        },
                        StartFlow::RollingBack { attempted_service, error } => {
                            &&& start_error(flow, event) == Some(error)
                            &&& attempted_service == service_was_asked(flow)
                            &&& tun_is_off_for(flow)
                            &&& flow is RecheckingExit ==> !service && windows
                                && !flow->startup.sidecar_owner
                        },
                        _ => false,
                    }
                },
                StartAction::QueryServiceCore => {
                    &&& next.1 matches StartFlow::ConfirmingService { error }
                    &&& next.0 == manager
                    &&& start_error(flow, event) == Some(error)
                    &&& service_was_asked(flow) && !tun_is_off_for(flow)
                },
                StartAction::Finish { result, reported, watch } => {
                    &&& next.1 is Finished
                    &&& match flow {
                        StartFlow::CheckingExit => {
                            &&& event matches StartEvent::Exiting(exiting)
                            &&& exiting || !(manager.running_mode is NotRunning)
                            &&& result is Ok && reported is None && next.0 == manager
                        },
                        StartFlow::Preparing => {
                            &&& event matches StartEvent::Prepared(Err(error))
                            &&& result == Err::<(), CoreError>(error)
                            &&& reported is None && next.0 == manager
                        },
                        StartFlow::Applying => {
                            &&& event is Applied
                            &&& result is Ok && next.0 == manager
                            &&& reported == Some(manager.running_mode)
                            &&& watch <==> windows && manager.running_mode is Sidecar
                        },
                        StartFlow::ConfirmingService { error } => {
                            &&& event matches StartEvent::ServiceCore(running)
                            &&& result == Err::<(), CoreError>(error)
                            &&& reported == Some(next.0.running_mode)
                            &&& next.0 == CoreManager {
                                running_mode: next.0.running_mode,
                                ..manager
                            }
                            &&& next.0.running_mode is Service <==> running == Ok::<
                                bool,
                                CoreError,
                            >(true)
                            &&& next.0.running_mode is Service || next.0.running_mode is NotRunning
                        },
                        _ => {
                            &&& next.0 == CoreManager {
                                running_mode: RunningMode::NotRunning,
                                ..manager
                            }
                            &&& reported == Some(RunningMode::NotRunning)
                            &&& match start_error(flow, event) {
                                Some(error) => result == Err::<(), CoreError>(error)
                                    && !service_was_asked(flow) && !tun_is_off_for(flow),
                                None => result is Ok && (flow is UndoingForExit || event
                                    == StartEvent::Exiting(true)),
                            }
                            &&& flow matches StartFlow::RecheckingExit { startup } ==> {
                                &&& event is Exiting
                                &&& if event->Exiting_0 {
                                    !(windows && startup.tun_fallback)
                                } else {
                                    !service && windows && !startup.sidecar_owner
                                }
                            }
                        },
                    }
                    &&& watch ==> flow is Applying
                },
                StartAction::Ignore => {
                    &&& next.0 == manager && next.1 == flow
                    &&& !(flow is CheckingExit && event is Exiting)
                    &&& !(flow is Preparing && event is Prepared)
                    &&& !(flow is RecheckingExit && event is Exiting)
                    &&& !(flow is UndoingForExit && event is RunFileWritten)
                    &&& !(flow is Regenerating && event is Generated)
                    &&& !(flow is Starting && event is Started)
                    &&& !(flow is Committing && event is SessionProbed)
                    &&& !(flow is RestoringRunFile && event is RunFileWritten)
                    &&& !(flow is RollingBack && event is RunFileWritten)
                    &&& !(flow is ConfirmingService && event is ServiceCore)
                    &&& !(flow is Applying && event is Applied)
                },
            }
        }),
{
}

/// What a start that has failed for good reports: the error that it failed
/// with, together with what went wrong while the Run file was written as it
/// was.
pub open spec fn start_error(flow: StartFlow, event: StartEvent) -> Option<CoreError> {
    match (flow, event) {
        (StartFlow::Starting { .. }, StartEvent::Started(Err(error))) => Some(error),
        (StartFlow::Regenerating { .. }, StartEvent::Generated(Err(error))) => Some(
            CoreError::Context(
                crate::error::Message::Note(Note::RegenerateIntent),
                Box::new(error),
            ),
        ),
        (StartFlow::RecheckingExit { .. }, StartEvent::Exiting(false)) => Some(
            CoreError::Plain(crate::error::Message::Note(Note::SidecarWithoutOwner)),
        ),
        (StartFlow::RestoringRunFile { .. }, StartEvent::RunFileWritten(Ok(_))) => Some(
            CoreError::Plain(crate::error::Message::Note(Note::SidecarExitedEarly)),
        ),
        (StartFlow::RestoringRunFile { .. }, StartEvent::RunFileWritten(Err(failure))) => Some(
            CoreError::Context(
                crate::error::Message::Note(Note::RestoreRunFile),
                Box::new(CoreError::Outside(failure)),
            ),
        ),
        (StartFlow::RollingBack { error, .. }, StartEvent::RunFileWritten(Ok(_))) => Some(error),
        (StartFlow::RollingBack { error, .. }, StartEvent::RunFileWritten(Err(failure))) => Some(
            CoreError::Context(
                crate::error::Message::TunFallbackRollback { rollback: failure },
                Box::new(error),
            ),
        ),
        (StartFlow::UndoingForExit, StartEvent::RunFileWritten(Err(failure))) => Some(
            CoreError::Plain(crate::error::Message::ExitRollback { rollback: failure }),
        ),
        _ => None,
    }
}

/// Whether what a start does at `flow` has TUN turned off until it is settled.
pub open spec fn tun_is_off_for(flow: StartFlow) -> bool {
    match flow {
        StartFlow::RecheckingExit { startup } => startup.tun_fallback,
        StartFlow::Regenerating { fallback } => fallback,
        StartFlow::Starting { fallback, .. } => fallback,
        _ => false,
    }
}

/// Whether, at `flow`, the service had been asked to start the core on Windows.
pub open spec fn service_was_asked(flow: StartFlow) -> bool {
    match flow {
        StartFlow::Regenerating { .. } => true,
        StartFlow::Starting { attempted_service, .. } => attempted_service,
        StartFlow::RestoringRunFile { attempted_service } => attempted_service,
        StartFlow::RollingBack { attempted_service, .. } => attempted_service,
        _ => false,
    }
}

/// A start in which the core was started ends in success: it takes the
/// configuration over, and then reports the mode that it leaves behind.
pub proof fn law_started_core_ends_in_success(
    manager: CoreManager,
    attempted_service: bool,
)
    ensures
        ({
            let started = manager.start_next(
                StartFlow::Starting { attempted_service, fallback: false },
                StartEvent::Started(Ok(())),
            );
            let end = started.0.start_next(started.1, StartEvent::Applied);
            &&& started.2 is ApplyRuntime
            &&& end.0 == manager
            &&& end.2 == StartAction::Finish {
                result: Ok(()),
                reported: Some(manager.running_mode),
                watch: manager.platform is Windows && manager.running_mode is Sidecar,
            }
        }),
{
}

/// A core that the service was not asked for and that did not start is
/// reported as such, at once, with the error that it did not start for.
pub proof fn law_failed_start_is_reported(manager: CoreManager, error: CoreError)
    ensures
        ({
            let failed = manager.start_next(
                StartFlow::Starting { attempted_service: false, fallback: false },
                StartEvent::Started(Err(error)),
            );
            &&& failed.0.running_mode is NotRunning
            &&& failed.2 == StartAction::Finish {
                result: Err(error),
                reported: Some(RunningMode::NotRunning),
                watch: false,
            }
        }),
{
}

} // verus!
