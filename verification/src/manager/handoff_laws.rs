//! What holds of handing the core over as a whole.

use super::handoff::{
    HandoffAction, HandoffEvent, HandoffFlow, RecoverAction, RecoverEvent, RecoverFlow, WatchAction, WatchEvent,
    WatchFlow, WatchTiming,
};
use super::CoreManager;
use crate::error::CoreError;
use vstd::prelude::*;

verus! {

/// Whether the sidecar is stopped while events come in; each comes with the
/// manager at that moment.
pub open spec fn sidecar_stopped_in(
    flow: HandoffFlow,
    events: Seq<(CoreManager, HandoffEvent)>,
) -> bool
    decreases events.len(),
{
    if events.len() == 0 {
        false
    } else {
        let next = events[0].0.handoff_next(flow, events[0].1);
        ||| next.1 is StopSidecar
        ||| sidecar_stopped_in(next.0, events.drop_first())
    }
}

/// Whether an attempt that stands at `flow` does not hold the configuration
/// lock.
pub open spec fn before_lock(flow: HandoffFlow) -> bool {
    flow is Scheduling || flow is Probing || flow is TakingLock || flow is Finished
}

/// The sidecar is not stopped by an attempt that did not get the configuration
/// lock.
pub proof fn law_sidecar_is_not_stopped_without_the_lock(
    flow: HandoffFlow,
    events: Seq<(CoreManager, HandoffEvent)>,
)
    requires
        before_lock(flow),
        forall|i: int|
            0 <= i < events.len() ==> !((#[trigger] events[i]).1 == HandoffEvent::LockTried {
                taken: true,
            }),
    ensures
        !sidecar_stopped_in(flow, events),
    decreases events.len(),
{
    if events.len() > 0 {
        let next = events[0].0.handoff_next(flow, events[0].1);
        let rest = events.drop_first();
        assert forall|i: int| 0 <= i < rest.len() implies !((#[trigger] rest[i]).1
            == HandoffEvent::LockTried { taken: true }) by {
            assert(rest[i] == events[i + 1]);
        }
        assert(!(events[0].1 == HandoffEvent::LockTried { taken: true }));
        law_sidecar_is_not_stopped_without_the_lock(next.0, rest);
    }
}

/// Whether an attempt that stands at `flow` has not heard from the service
/// under the lock.
pub open spec fn before_answer(flow: HandoffFlow) -> bool {
    before_lock(flow) || flow is TakingLifecycle || flow is Reprobing
}

/// The sidecar is not stopped while the service does not answer.
pub proof fn law_sidecar_is_not_stopped_for_a_silent_service(
    flow: HandoffFlow,
    events: Seq<(CoreManager, HandoffEvent)>,
)
    requires
        before_answer(flow),
        forall|i: int|
            0 <= i < events.len() ==> !((#[trigger] events[i]).1 is Probed
                && events[i].1->Probed_0 is Ok),
    ensures
        !sidecar_stopped_in(flow, events),
    decreases events.len(),
{
    if events.len() > 0 {
        let next = events[0].0.handoff_next(flow, events[0].1);
        let rest = events.drop_first();
        assert forall|i: int| 0 <= i < rest.len() implies !((#[trigger] rest[i]).1 is Probed
            && rest[i].1->Probed_0 is Ok) by {
            assert(rest[i] == events[i + 1]);
        }
        assert(!(events[0].1 is Probed && events[0].1->Probed_0 is Ok));
        law_sidecar_is_not_stopped_for_a_silent_service(next.0, rest);
    }
}

/// An attempt that finds no sidecar running ends as done, and stops nothing.
pub proof fn law_nothing_to_hand_over_is_done(manager: CoreManager)
    requires
        !(manager.running_mode is Sidecar),
    ensures
        manager.handoff_next(HandoffFlow::TakingLifecycle, HandoffEvent::LifecycleTaken) == (
            HandoffFlow::Finished,
            HandoffAction::Finish(super::handoff::HandoffOutcome::Done),
        ),
{
}

/// After a failed attempt the sidecar is started again only with the lease
/// held, the service silent, and nothing else against it; TUN is then turned
/// off again just where it was.
pub proof fn law_sidecar_returns_only_if_safe(
    manager: CoreManager,
    flow: RecoverFlow,
    event: RecoverEvent,
)
    requires
        manager.recover_next(flow, event).2 is StartSidecar,
    ensures
        flow is CheckingSafety,
        event is Safety,
        event->Safety_0.safe(),
        manager.recover_next(flow, event).0 == manager.with_tun_fallback(
            flow->CheckingSafety_restore,
        ),
{
}

/// What is looked at before a sidecar returns is looked at only once the lease
/// is held and the service has not answered.
pub proof fn law_return_is_considered_only_with_the_lease(
    manager: CoreManager,
    flow: RecoverFlow,
    event: RecoverEvent,
)
    ensures
        manager.recover_next(flow, event).1 is CheckingSafety && !(flow is CheckingSafety)
            ==> flow is Probing && event is Probed && event->Probed_0 is Err,
        manager.recover_next(flow, event).1 is Probing && !(flow is Probing) ==> flow is Trying
            && event is Tried && event->Tried_0 == Ok::<bool, crate::error::Failure>(true),
{
}

/// After a failed attempt there is a sidecar that runs, or a core that the
/// service says it runs, or no core at all.
pub proof fn law_failed_attempt_leaves_one_core_at_most(
    manager: CoreManager,
    flow: RecoverFlow,
    event: RecoverEvent,
)
    requires
        manager.recover_next(flow, event).2 is Finish,
    ensures
        ({
            let after = manager.recover_next(flow, event).0;
            ||| flow is Applying && after == manager
            ||| after.running_mode is NotRunning
            ||| flow is Confirming && event is ServiceCore && event->ServiceCore_0 == Ok::<
                bool,
                CoreError,
            >(true) && after.running_mode is Service
        }),
        manager.recover_next(flow, event).0.windows_sidecar_tun_fallback_active
            == manager.windows_sidecar_tun_fallback_active,
{
}

/// A sidecar counts as brought back only where it is recorded as running.
pub proof fn law_returned_sidecar_runs(
    manager: CoreManager,
    flow: RecoverFlow,
    event: RecoverEvent,
)
    requires
        manager.recover_next(flow, event).1 is Applying,
        !(flow is Applying),
    ensures
        flow is ProbingSession,
        manager.sidecar_recorded(),
        manager.recover_next(flow, event).0 == manager,
{
}

/// A watcher that ends leaves room for another, and asks for one exactly where
/// a sidecar still runs and another request came meanwhile.
pub proof fn law_missed_request_is_served(
    manager: CoreManager,
    timing: WatchTiming,
    flow: WatchFlow,
    event: WatchEvent,
)
    ensures
        manager.watch_next(timing, flow, event).2 matches WatchAction::Finish { rearm } ==> {
            let after = manager.watch_next(timing, flow, event).0;
            let served = match flow {
                WatchFlow::ReadingClock { generation, .. } => generation,
                WatchFlow::Pausing { generation, .. } => generation,
                WatchFlow::HandingOver { generation, .. } => generation,
                WatchFlow::Finished => 0,
            };
            &&& !after.handoff_watcher_running
            &&& rearm <==> manager.running_mode is Sidecar && manager.handoff_watcher_generation
                != served
        },
        !(manager.watch_next(timing, flow, event).2 is Finish) ==> manager.watch_next(
            timing,
            flow,
            event,
        ).0 == manager,
{
}

/// A watcher tries to hand over only a sidecar.
pub proof fn law_watcher_hands_over_sidecars_only(
    manager: CoreManager,
    timing: WatchTiming,
    flow: WatchFlow,
    event: WatchEvent,
)
    requires
        manager.watch_next(timing, flow, event).2 is TryHandoff,
    ensures
        manager.running_mode is Sidecar,
{
}

/// What an attempt to hand the core over does, it does for a reason: for each
/// thing that it asks for, where it stood, what came in, and how it goes on.
pub proof fn law_handoff_acts_for_a_reason(
    manager: CoreManager,
    flow: HandoffFlow,
    event: HandoffEvent,
)
    ensures
        ({
            let next = manager.handoff_next(flow, event);
            match next.1 {
                HandoffAction::ScheduleMaintenance => false,
                HandoffAction::ProbeService => {
                    ||| flow is Scheduling && event is MaintenanceScheduled && next.0 is Probing
                    ||| flow is TakingLifecycle && event is LifecycleTaken
                        && manager.running_mode is Sidecar && next.0 is Reprobing
                },
                HandoffAction::TryLock => {
                    &&& flow is Probing && next.0 is TakingLock
                    &&& event matches HandoffEvent::Probed(Ok(_))
                },
                HandoffAction::AwaitLifecycle => {
                    &&& flow is TakingLock && next.0 is TakingLifecycle
                    &&& event == HandoffEvent::LockTried { taken: true }
                },
                HandoffAction::Generate => {
                    &&& flow is Reprobing
                    &&& event matches HandoffEvent::Probed(Ok(_))
                    &&& next.0 == HandoffFlow::Generating {
                        fallback: manager.windows_sidecar_tun_fallback_active,
                    }
                },
                HandoffAction::StopSidecar => {
                    &&& flow matches HandoffFlow::Generating { fallback }
                    &&& event matches HandoffEvent::Generated(Ok(_))
                    &&& next.0 == HandoffFlow::Stopping { fallback }
                },
                HandoffAction::StartByService => {
                    &&& flow matches HandoffFlow::Stopping { fallback }
                    &&& event matches HandoffEvent::Stopped(Ok(_))
                    &&& next.0 == HandoffFlow::Starting { fallback }
                },
                HandoffAction::ApplyRuntime => {
                    &&& flow is Starting && next.0 is Applying
                    &&& event matches HandoffEvent::Started(Ok(_))
                },
                HandoffAction::Recover { restore_tun_fallback } => {
                    &&& flow == HandoffFlow::Starting { fallback: restore_tun_fallback }
                    &&& next.0 is Recovering
                    &&& event matches HandoffEvent::Started(Err(_))
                },
                HandoffAction::Finish(outcome) => {
                    &&& next.0 is Finished
                    &&& match (flow, event) {
                        (HandoffFlow::Probing, HandoffEvent::Probed(Err(_))) => outcome is NotReady,
                        (HandoffFlow::Reprobing, HandoffEvent::Probed(Err(_))) => outcome is NotReady,
                        (HandoffFlow::TakingLock, HandoffEvent::LockTried { taken }) => !taken
                            && outcome is NotReady,
                        (HandoffFlow::TakingLifecycle, HandoffEvent::LifecycleTaken) => !(
                        manager.running_mode is Sidecar) && outcome is Done,
                        (HandoffFlow::Generating { .. }, HandoffEvent::Generated(Err(_))) => outcome
                            is Failed,
                        (HandoffFlow::Stopping { .. }, HandoffEvent::Stopped(Err(_))) => outcome
                            is Failed,
                        (HandoffFlow::Applying, HandoffEvent::Applied) => outcome is Done,
                        (HandoffFlow::Recovering, HandoffEvent::Recovered) => outcome is Failed,
                        _ => false,
                    }
                },
                HandoffAction::Ignore => {
                    &&& next.0 == flow
                    &&& !(flow is Scheduling && event is MaintenanceScheduled)
                    &&& !((flow is Probing || flow is Reprobing) && event is Probed)
                    &&& !(flow is TakingLock && event is LockTried)
                    &&& !(flow is TakingLifecycle && event is LifecycleTaken)
                    &&& !(flow is Generating && event is Generated)
                    &&& !(flow is Stopping && event is Stopped)
                    &&& !(flow is Starting && event is Started)
                    &&& !(flow is Applying && event is Applied)
                    &&& !(flow is Recovering && event is Recovered)
                },
            }
        }),
{
}

/// What bringing a sidecar back does, it does for a reason: for each thing that
/// it asks for, where it stood, what came in, and how it goes on.
pub proof fn law_recovery_acts_for_a_reason(
    manager: CoreManager,
    flow: RecoverFlow,
    event: RecoverEvent,
)
    ensures
        ({
            let next = manager.recover_next(flow, event);
            match next.2 {
                RecoverAction::TryAcquire => false,
                RecoverAction::ProbeService => {
                    &&& flow matches RecoverFlow::Trying { restore }
                    &&& event matches RecoverEvent::Tried(Ok(true))
                    &&& next.1 == RecoverFlow::Probing { restore }
                    &&& next.0 == manager
                },
                RecoverAction::CheckSafety => {
                    &&& flow matches RecoverFlow::Probing { restore }
                    &&& event matches RecoverEvent::Probed(Err(_))
                    &&& next.1 == RecoverFlow::CheckingSafety { restore }
                    &&& next.0 == manager
                },
                RecoverAction::StartSidecar => {
                    &&& flow matches RecoverFlow::CheckingSafety { restore }
                    &&& event is Safety
                    &&& super::ownership_laws::nothing_hints(event->Safety_0)
                    &&& next.1 is Starting
                    &&& next.0 == CoreManager {
                        windows_sidecar_tun_fallback_active: restore,
                        ..manager
                    }
                },
                RecoverAction::ProbeSession => {
                    &&& flow is Starting && next.1 is ProbingSession && next.0 == manager
                    &&& event matches RecoverEvent::Started(Ok(_))
                },
                RecoverAction::WriteRunFile => {
                    &&& next.1 is Abandoning
                    &&& next.0 == CoreManager {
                        windows_sidecar_tun_fallback_active: false,
                        ..manager
                    }
                    &&& match (flow, event) {
                        (RecoverFlow::Trying { .. }, RecoverEvent::Tried(Err(_))) => true,
                        (RecoverFlow::Probing { .. }, RecoverEvent::Probed(Ok(_))) => true,
                        (RecoverFlow::CheckingSafety { .. }, RecoverEvent::Safety(safety)) => {
                            !super::ownership_laws::nothing_hints(safety)
                        },
                        (RecoverFlow::Starting, RecoverEvent::Started(Err(_))) => true,
                        (RecoverFlow::ProbingSession, RecoverEvent::SessionProbed { wait_status })
                            => wait_status != 258 || !manager.sidecar_recorded(),
                        _ => false,
                    }
                },
                RecoverAction::ApplyRuntime => {
                    &&& next.0 == manager
                    &&& match (flow, event) {
                        (RecoverFlow::Trying { .. }, RecoverEvent::Tried(Ok(acquired))) => !acquired
                            && next.1 is ContendedApplying,
                        (RecoverFlow::ProbingSession, RecoverEvent::SessionProbed { wait_status })
                            => wait_status == 258 && manager.sidecar_recorded()
                            && next.1 is Applying,
                        (RecoverFlow::Abandoning, RecoverEvent::RunFileWritten(_)) => next.1
                            is AbandonedApplying,
                        _ => false,
                    }
                },
                RecoverAction::QueryServiceCore => {
                    &&& flow is ContendedApplying && event is Applied
                    &&& next.1 is Confirming && next.0 == manager
                },
                RecoverAction::Finish => {
                    &&& next.1 is Finished
                    &&& next.0 == CoreManager { running_mode: next.0.running_mode, ..manager }
                    &&& match (flow, event) {
                        (RecoverFlow::AbandonedApplying, RecoverEvent::Applied) => next.0
                            .running_mode is NotRunning,
                        (RecoverFlow::Applying, RecoverEvent::Applied) => next.0.running_mode
                            == manager.running_mode,
                        (RecoverFlow::Confirming, RecoverEvent::ServiceCore(Ok(true))) => next.0
                            .running_mode is Service,
                        (RecoverFlow::Confirming, RecoverEvent::ServiceCore(_)) => next.0
                            .running_mode is NotRunning,
                        _ => false,
                    }
                },
                RecoverAction::Ignore => {
                    &&& next.0 == manager && next.1 == flow
                    &&& !(flow is Trying && event is Tried)
                    &&& !(flow is Probing && event is Probed)
                    &&& !(flow is CheckingSafety && event is Safety)
                    &&& !(flow is Starting && event is Started)
                    &&& !(flow is ProbingSession && event is SessionProbed)
                    &&& !(flow is Abandoning && event is RunFileWritten)
                    &&& !((flow is AbandonedApplying || flow is ContendedApplying
                        || flow is Applying) && event is Applied)
                    &&& !(flow is Confirming && event is ServiceCore)
                },
            }
        }),
{
}

/// A watcher tries again and again, as long as there is a sidecar, the service
/// is not ready and its window lasts; it keeps the request that it serves and
/// the moment it began.
pub proof fn law_watcher_acts_for_a_reason(
    manager: CoreManager,
    timing: WatchTiming,
    flow: WatchFlow,
    event: WatchEvent,
)
    ensures
        ({
            let next = manager.watch_next(timing, flow, event);
            match next.2 {
                WatchAction::ReadClock => {
                    &&& flow matches WatchFlow::HandingOver { generation, started }
                    &&& event == WatchEvent::Attempted(super::handoff::HandoffOutcome::NotReady)
                    &&& next.1 == WatchFlow::ReadingClock { generation, started }
                },
                WatchAction::Sleep { interval } => {
                    &&& flow matches WatchFlow::ReadingClock { generation, started }
                    &&& event matches WatchEvent::Clock { now }
                    &&& now - started < timing.window && timing.window > 0 && interval
                        == timing.interval
                    &&& next.1 == WatchFlow::Pausing { generation, started }
                },
                WatchAction::TryHandoff => {
                    &&& flow matches WatchFlow::Pausing { generation, started }
                    &&& event is Slept && manager.running_mode is Sidecar
                    &&& next.1 == WatchFlow::HandingOver { generation, started }
                },
                WatchAction::Finish { .. } => {
                    &&& next.1 is Finished
                    &&& next.0 == CoreManager { handoff_watcher_running: false, ..manager }
                    &&& match (flow, event) {
                        (WatchFlow::ReadingClock { started, .. }, WatchEvent::Clock { now }) => {
                            now - started >= timing.window || timing.window == 0
                        },
                        (WatchFlow::Pausing { .. }, WatchEvent::Slept) => !(
                        manager.running_mode is Sidecar),
                        (WatchFlow::HandingOver { .. }, WatchEvent::Attempted(outcome)) => !(
                        outcome is NotReady),
                        _ => false,
                    }
                },
                WatchAction::Ignore => {
                    &&& next.1 == flow
                    &&& !(flow is ReadingClock && event is Clock)
                    &&& !(flow is Pausing && event is Slept)
                    &&& !(flow is HandingOver && event is Attempted)
                },
            }
        }),
{
}

/// A core is handed over in full: the service answers twice, the sidecar is
/// stopped, the service starts the core, and only then is the attempt done.
pub proof fn law_handoff_is_done_in_full(
    manager: CoreManager,
    status: crate::service::status::ServiceStatusSnapshot,
)
    requires
        manager.running_mode is Sidecar,
    ensures
        ({
            let m = manager;
            let probe = m.handoff_next(
                HandoffFlow::Scheduling,
                HandoffEvent::MaintenanceScheduled,
            );
            let lock = m.handoff_next(probe.0, HandoffEvent::Probed(Ok(status)));
            let lifecycle = m.handoff_next(lock.0, HandoffEvent::LockTried { taken: true });
            let again = m.handoff_next(lifecycle.0, HandoffEvent::LifecycleTaken);
            let generate = m.handoff_next(again.0, HandoffEvent::Probed(Ok(status)));
            let stop = m.handoff_next(generate.0, HandoffEvent::Generated(Ok(())));
            let start = m.handoff_next(stop.0, HandoffEvent::Stopped(Ok(())));
            let apply = m.handoff_next(start.0, HandoffEvent::Started(Ok(())));
            let end = m.handoff_next(apply.0, HandoffEvent::Applied);
            &&& probe.1 is ProbeService && lock.1 is TryLock && lifecycle.1 is AwaitLifecycle
            &&& again.1 is ProbeService && generate.1 is Generate && stop.1 is StopSidecar
            &&& start.1 is StartByService && apply.1 is ApplyRuntime
            &&& end.1 == HandoffAction::Finish(super::handoff::HandoffOutcome::Done)
        }),
{
}

} // verus!
