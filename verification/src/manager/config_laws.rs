//! What holds of bringing the configuration up to date as a whole.

use super::config::{
    edit_next, perform_next, run_on_next, ApplyAction, ApplyEvent, ApplyFlow, DraftFate,
    EditAction, EditEvent, EditFlow, PerformAction, PerformEvent, PerformFlow, RunOnAction,
    RunOnEvent, RunOnFlow, RuntimeDrafts, UpdateAction, UpdateEvent, UpdateFlow,
};
use super::CoreManager;
use crate::error::{CoreError, Failure, Message};
use crate::rollback::{RollbackFailures, RollbackPart};
use crate::validation::{ValidationOutcome, ValidationSkipReason};
use vstd::prelude::*;

verus! {

/// Of two updates that are not forced, the second is skipped where it comes
/// sooner than the set time after the first; one that comes later is made.
pub proof fn law_soon_update_is_skipped(
    manager: CoreManager,
    first: u64,
    second: u64,
    debounce: u64,
)
    requires
        first <= second,
    ensures
        second - first < debounce ==> manager.updated_at(first).update_admitted(
            false,
            second,
            debounce,
        ) == (
            manager.updated_at(first),
            UpdateFlow::Finished,
            UpdateAction::Finish(
                Ok(ValidationOutcome::Skipped { reason: ValidationSkipReason::Debounced }),
            ),
        ),
        second - first >= debounce ==> manager.updated_at(first).update_admitted(
            false,
            second,
            debounce,
        ) == (manager.updated_at(second), UpdateFlow::Performing, UpdateAction::Perform),
{
}

/// A forced update is made at any time.
pub proof fn law_forced_update_is_made(manager: CoreManager, now: u64, debounce: u64)
    ensures
        manager.update_admitted(true, now, debounce) == (
            manager.updated_at(now),
            UpdateFlow::Performing,
            UpdateAction::Perform,
        ),
{
}

/// An update that does not get the configuration lock, or comes while the
/// application exits, changes nothing and does not count as made.
pub proof fn law_refused_update_changes_nothing(
    manager: CoreManager,
    debounce: u64,
    force: bool,
    now: u64,
)
    ensures
        manager.update_next(
            debounce,
            (UpdateFlow::TakingLock { force }),
            (UpdateEvent::LockTried { taken: false, now }),
        ) == (
            manager,
            UpdateFlow::Finished,
            UpdateAction::Finish(Ok(ValidationOutcome::Busy)),
        ),
        manager.update_next(
            debounce,
            (UpdateFlow::CheckingExit { force }),
            UpdateEvent::Exiting(true),
        ) == (
            manager,
            UpdateFlow::Finished,
            UpdateAction::Finish(
                Ok(ValidationOutcome::Skipped { reason: ValidationSkipReason::Exiting }),
            ),
        ),
{
}

/// The core is made to run only on a configuration that was found good, and
/// one that was not is given up.
pub proof fn law_only_a_valid_configuration_is_applied(
    manager: CoreManager,
    flow: ApplyFlow,
    event: ApplyEvent,
)
    ensures
        manager.apply_next(flow, event).1 is ApplyPending ==> flow is Validating
            && event is Validated && event->Validated_0 is Ok
            && event->Validated_0->Ok_0 is Valid,
        flow is Validating && event is Validated && !(event->Validated_0 is Ok
            && event->Validated_0->Ok_0 is Valid) ==> manager.apply_next(flow, event).1
            == (ApplyAction::Finish { result: event->Validated_0, discard: true }),
{
}

/// Whether, from `flow` on, the recovery target is read, set or put back while
/// events come in, each with the manager as it then is.
pub open spec fn touches_target(flow: ApplyFlow, events: Seq<(CoreManager, ApplyEvent)>) -> bool
    decreases events.len(),
{
    if events.len() == 0 {
        false
    } else {
        let next = events[0].0.apply_next(flow, events[0].1);
        ||| next.1 is SnapshotIcs
        ||| next.1 is ConfigureIcs
        ||| next.1 is RestoreIcs
        ||| touches_target(next.0, events.drop_first())
    }
}

/// Whether the recovery target has no part in what follows `flow`.
pub open spec fn without_target(flow: ApplyFlow) -> bool {
    match flow {
        ApplyFlow::Validating { snapshot } => snapshot is None,
        ApplyFlow::Applying { snapshot } => snapshot is None,
        ApplyFlow::Finished => true,
        _ => false,
    }
}

proof fn lemma_target_left_alone(flow: ApplyFlow, events: Seq<(CoreManager, ApplyEvent)>)
    requires
        without_target(flow),
    ensures
        !touches_target(flow, events),
    decreases events.len(),
{
    if events.len() > 0 {
        lemma_target_left_alone(
            events[0].0.apply_next(flow, events[0].1).0,
            events.drop_first(),
        );
    }
}

/// The recovery target is read, and set, only where TUN changes: otherwise the
/// configuration is checked at once, and the target is left alone to the end.
/// Where it cannot be read, nothing is applied.
pub proof fn law_target_follows_tun_only(
    manager: CoreManager,
    schedule: bool,
    drafts: RuntimeDrafts,
    later: Seq<(CoreManager, ApplyEvent)>,
)
    requires
        !schedule || !crate::tun::tun_differs(drafts.committed, drafts.latest),
    ensures
        !manager.sync_follows(schedule, drafts),
        ({
            let next = manager.apply_next(
                (ApplyFlow::ReadingDrafts { schedule }),
                ApplyEvent::Drafts(drafts),
            );
            next.1 is Validate && !touches_target(next.0, later)
        }),
        forall|e: CoreError|
            #[trigger] manager.apply_next(
                ApplyFlow::Snapshotting,
                ApplyEvent::Snapshotted(Err(e)),
            ) == (ApplyFlow::Finished, ApplyAction::Finish { result: Err(e), discard: true }),
{
    let next = manager.apply_next(
        ApplyFlow::ReadingDrafts { schedule },
        ApplyEvent::Drafts(drafts),
    );
    lemma_target_left_alone(next.0, later);
}

/// Where the recovery target cannot be set after the core was made to run on
/// the new configuration, the core is made to run on the old one and the
/// target is put back, whether or not the first works.
pub proof fn law_unset_target_undoes_the_application(
    manager: CoreManager,
    snapshot: crate::service::ics::WindowsIcsRecoveryTransaction,
    error: CoreError,
    restored: Result<(), CoreError>,
)
    ensures
        ({
            let failed = manager.apply_next(
                ApplyFlow::Configuring { snapshot },
                ApplyEvent::Configured(Err(error)),
            );
            let undone = manager.apply_next(failed.0, ApplyEvent::RuntimeRestored(restored));
            &&& failed.1 is RestoreRuntime
            &&& undone.1 == ApplyAction::RestoreIcs(snapshot)
        }),
{
}

/// The configuration is taken over exactly where the core was made to run on
/// it, by telling it or by restarting it; a core that could not be restarted
/// has it given up.
pub proof fn law_draft_is_applied_only_on_success(
    unwritten: DraftFate,
    flow: RunOnFlow,
    event: RunOnEvent,
)
    requires
        !(unwritten is Apply),
    ensures
        super::config::run_on_next(unwritten, flow, event).1 matches RunOnAction::Finish {
            result,
            fate,
        } ==> {
            &&& result is Ok <==> fate is Apply
            &&& flow is Restarting && result is Err ==> fate is Discard
        },
{
}

/// An application succeeds only after the core was made to run on the
/// configuration and, where the recovery target follows, the target was set.
pub proof fn law_success_means_that_the_core_runs_on_it(
    manager: CoreManager,
    flow: ApplyFlow,
    event: ApplyEvent,
)
    ensures
        ({
            let next = manager.apply_next(flow, event);
            next.1 matches ApplyAction::Finish { result, discard } ==> {
                &&& result matches Ok(ValidationOutcome::Valid) ==> {
                    ||| flow == (ApplyFlow::Applying { snapshot: None }) && event is Applied && event->Applied_0 is Ok
                    ||| flow is Configuring && event is Configured && event->Configured_0 is Ok
                }
                &&& result is Ok && !(result->Ok_0 is Valid) ==> flow is Validating && event
                    == ApplyEvent::Validated(result)
            }
        }),
{
}

/// A core that does not run on the configuration has its error reported as it
/// is, whatever else would have followed.
pub proof fn law_failed_application_is_reported(
    manager: CoreManager,
    snapshot: Option<crate::service::ics::WindowsIcsRecoveryTransaction>,
    error: CoreError,
)
    ensures
        manager.apply_next(
            ApplyFlow::Applying { snapshot },
            ApplyEvent::Applied(Err(error)),
        ) == (
            ApplyFlow::Finished,
            ApplyAction::Finish { result: Err(error), discard: false },
        ),
{
}

/// Once the target could not be set, an application ends in that error,
/// together with exactly those parts of undoing it that failed.
pub proof fn law_unset_target_is_reported(
    manager: CoreManager,
    snapshot: crate::service::ics::WindowsIcsRecoveryTransaction,
    error: CoreError,
    runtime: Result<(), CoreError>,
    service: Result<(), CoreError>,
)
    ensures
        ({
            let failed = manager.apply_next(
                ApplyFlow::Configuring { snapshot },
                ApplyEvent::Configured(Err(error)),
            );
            let undone = manager.apply_next(failed.0, ApplyEvent::RuntimeRestored(runtime));
            let end = manager.apply_next(undone.0, ApplyEvent::ServiceRestored(service));
            &&& failed.1 is RestoreRuntime
            &&& undone.1 == ApplyAction::RestoreIcs(snapshot)
            &&& end.1 matches ApplyAction::Finish { result: Err(reported), discard: false }
            &&& match (runtime, service) {
                (Ok(_), Ok(_)) => reported == error,
                (Err(a), Ok(_)) => reported == CoreError::Context(
                    Message::RollbackErrors {
                        failures: RollbackFailures::And(
                            Box::new(RollbackFailures::Nothing),
                            RollbackPart::Runtime,
                            Box::new(a),
                        ),
                    },
                    Box::new(error),
                ),
                (Ok(_), Err(b)) => reported == CoreError::Context(
                    Message::RollbackErrors {
                        failures: RollbackFailures::And(
                            Box::new(RollbackFailures::Nothing),
                            RollbackPart::Service,
                            Box::new(b),
                        ),
                    },
                    Box::new(error),
                ),
                (Err(a), Err(b)) => reported == CoreError::Context(
                    Message::RollbackErrors {
                        failures: RollbackFailures::And(
                            Box::new(
                                RollbackFailures::And(
                                    Box::new(RollbackFailures::Nothing),
                                    RollbackPart::Runtime,
                                    Box::new(a),
                                ),
                            ),
                            RollbackPart::Service,
                            Box::new(b),
                        ),
                    },
                    Box::new(error),
                ),
            }
        }),
{
}

/// The recovery target follows a change of TUN wherever the service runs the
/// core, or the target was kept or is to be: it is read first, and nowhere
/// else.
pub proof fn law_target_follows_a_change_of_tun(manager: CoreManager, drafts: RuntimeDrafts)
    ensures
        ({
            let next = manager.apply_next(
                ApplyFlow::ReadingDrafts { schedule: true },
                ApplyEvent::Drafts(drafts),
            );
            let changed = match (
                crate::tun::tun_section(drafts.committed),
                crate::tun::tun_section(drafts.latest),
            ) {
                (None, None) => false,
                (Some(a), Some(b)) => !crate::yaml::yaml_equal(a, b),
                _ => true,
            };
            let kept = drafts.recovery_before == Some(true) || drafts.recovery_now == Some(true);
            &&& next.1 is SnapshotIcs <==> changed && (manager.running_mode is Service || kept)
            &&& !(next.1 is SnapshotIcs) ==> next.1 is Validate
        }),
{
}

/// What an application does, it does for a reason: for each thing that it asks
/// for, where it stood, what came in, and how it goes on.
pub proof fn law_application_acts_for_a_reason(
    manager: CoreManager,
    flow: ApplyFlow,
    event: ApplyEvent,
)
    ensures
        ({
            let next = manager.apply_next(flow, event);
            match next.1 {
                ApplyAction::ReadDrafts => false,
                ApplyAction::SnapshotIcs => {
                    &&& flow is ReadingDrafts && flow->schedule && event is Drafts
                    &&& next.0 is Snapshotting
                },
                ApplyAction::Validate => match next.0 {
                    ApplyFlow::Validating { snapshot: None } => flow is ReadingDrafts
                        && event is Drafts,
                    ApplyFlow::Validating { snapshot: Some(snapshot) } => flow is Snapshotting
                        && event == ApplyEvent::Snapshotted(Ok(snapshot)),
                    _ => false,
                },
                ApplyAction::ApplyPending => {
                    &&& flow matches ApplyFlow::Validating { snapshot }
                    &&& event == ApplyEvent::Validated(Ok(ValidationOutcome::Valid))
                    &&& next.0 == ApplyFlow::Applying { snapshot }
                },
                ApplyAction::ConfigureIcs => {
                    &&& flow matches ApplyFlow::Applying { snapshot: Some(snapshot) }
                    &&& event is Applied && event->Applied_0 is Ok
                    &&& next.0 == ApplyFlow::Configuring { snapshot }
                },
                ApplyAction::RestoreRuntime => {
                    &&& flow matches ApplyFlow::Configuring { snapshot }
                    &&& event matches ApplyEvent::Configured(Err(error))
                    &&& next.0 == ApplyFlow::RestoringRuntime { snapshot, error }
                },
                ApplyAction::RestoreIcs(snapshot) => {
                    &&& flow matches ApplyFlow::RestoringRuntime { snapshot: kept, error }
                    &&& kept == snapshot && event is RuntimeRestored
                    &&& next.0 matches ApplyFlow::RestoringService { error: same, failures }
                    &&& same == error
                },
                ApplyAction::Finish { result, discard } => {
                    &&& next.0 is Finished
                    &&& match flow {
                        ApplyFlow::Snapshotting => {
                            &&& event matches ApplyEvent::Snapshotted(Err(error))
                            &&& result == Err::<ValidationOutcome, CoreError>(error) && discard
                        },
                        ApplyFlow::Validating { .. } => discard && event
                            == ApplyEvent::Validated(result) && !(result is Ok
                            && result->Ok_0 is Valid),
                        ApplyFlow::Applying { snapshot } => {
                            &&& event matches ApplyEvent::Applied(applied)
                            &&& !discard
                            &&& match applied {
                                Ok(_) => snapshot is None && result is Ok,
                                Err(error) => result == Err::<ValidationOutcome, CoreError>(error),
                            }
                        },
                        ApplyFlow::Configuring { .. } => !discard && event is Configured && event->Configured_0 is Ok && result is Ok,
                        ApplyFlow::RestoringService { .. } => !discard && event is ServiceRestored
                            && result is Err,
                        _ => false,
                    }
                },
                ApplyAction::Ignore => {
                    &&& next.0 == flow
                    &&& !(flow is ReadingDrafts && event is Drafts)
                    &&& !(flow is Snapshotting && event is Snapshotted)
                    &&& !(flow is Validating && event is Validated)
                    &&& !(flow is Applying && event is Applied)
                    &&& !(flow is Configuring && event is Configured)
                    &&& !(flow is RestoringRuntime && event is RuntimeRestored)
                    &&& !(flow is RestoringService && event is ServiceRestored)
                },
            }
        }),
{
}

/// What an update comes to is what generating and applying came to; it is made
/// under the configuration lock and while the application does not exit.
pub proof fn law_update_acts_for_a_reason(
    manager: CoreManager,
    debounce: u64,
    flow: UpdateFlow,
    event: UpdateEvent,
)
    ensures
        ({
            let next = manager.update_next(debounce, flow, event);
            match next.2 {
                UpdateAction::QueryExiting => false,
                UpdateAction::TryLock => {
                    &&& flow matches UpdateFlow::CheckingExit { force }
                    &&& event == UpdateEvent::Exiting(false)
                    &&& next.1 == UpdateFlow::TakingLock { force }
                    &&& next.0 == manager
                },
                UpdateAction::Perform => {
                    &&& flow matches UpdateFlow::TakingLock { force }
                    &&& event matches UpdateEvent::LockTried { taken: true, now }
                    &&& next.1 is Performing
                    &&& next.0 == CoreManager { last_update: Some(now), ..manager }
                    &&& force || manager.last_update is None || (if now
                        >= manager.last_update->0 {
                        now - manager.last_update->0 >= debounce
                    } else {
                        debounce == 0
                    })
                },
                UpdateAction::Finish(result) => {
                    &&& next.1 is Finished && next.0 == manager
                    &&& match flow {
                        UpdateFlow::CheckingExit { .. } => event == UpdateEvent::Exiting(true)
                            && result == Ok::<ValidationOutcome, CoreError>(
                            ValidationOutcome::Skipped { reason: ValidationSkipReason::Exiting },
                        ),
                        UpdateFlow::TakingLock { force } => match event {
                            UpdateEvent::LockTried { taken: false, .. } => result == Ok::<
                                ValidationOutcome,
                                CoreError,
                            >(ValidationOutcome::Busy),
                            UpdateEvent::LockTried { taken: true, now } => {
                                &&& !force && manager.last_update is Some
                                &&& if now >= manager.last_update->0 {
                                    now - manager.last_update->0 < debounce
                                } else {
                                    0 < debounce
                                }
                                &&& result == Ok::<ValidationOutcome, CoreError>(
                                    ValidationOutcome::Skipped {
                                        reason: ValidationSkipReason::Debounced,
                                    },
                                )
                            },
                            _ => false,
                        },
                        UpdateFlow::Performing => event == UpdateEvent::Performed(result),
                        UpdateFlow::Finished => false,
                    }
                },
                UpdateAction::Ignore => {
                    &&& next.0 == manager && next.1 == flow
                    &&& !(flow is CheckingExit && event is Exiting)
                    &&& !(flow is TakingLock && event is LockTried)
                    &&& !(flow is Performing && event is Performed)
                },
            }
        }),
{
}

/// A configuration that could not be generated is invalid, says why, and is
/// given up; one that was is applied, and what that came to is the outcome.
pub proof fn law_generated_configuration_is_applied(
    failure: Failure,
    applied: Result<ValidationOutcome, CoreError>,
)
    ensures
        ({
            let failed = perform_next(
                PerformFlow::Generating,
                PerformEvent::Generated(Err(failure)),
            );
            let generated = perform_next(PerformFlow::Generating, PerformEvent::Generated(Ok(())));
            let end = perform_next(generated.0, PerformEvent::Applied(applied));
            &&& failed.0 is Finished
            &&& failed.1 matches PerformAction::Finish { result, discard }
            &&& discard
            &&& result matches Ok(ValidationOutcome::Invalid { message })
            &&& message == failure.summary
            &&& generated.1 is ApplyGenerated
            &&& end == (
                PerformFlow::Finished,
                PerformAction::Finish { result: applied, discard: false },
            )
        }),
{
}

/// Generating and applying ask for nothing out of turn.
pub proof fn law_performing_keeps_its_order(flow: PerformFlow, event: PerformEvent)
    ensures
        ({
            let next = perform_next(flow, event);
            &&& !(next.1 is Generate)
            &&& next.1 is ApplyGenerated <==> flow is Generating && event is Generated && event->Generated_0 is Ok
            &&& next.1 is Ignore <==> !(flow is Generating && event is Generated) && !(
            flow is Applying && event is Applied)
            &&& next.1 is Ignore ==> next.0 == flow
        }),
{
}

/// An edit is made only under the configuration lock; what applying it came to
/// is the outcome, and without the lock there is none.
pub proof fn law_edit_is_made_under_the_lock(
    flow: EditFlow,
    event: EditEvent,
    applied: Result<ValidationOutcome, CoreError>,
)
    ensures
        edit_next(flow, event).1 is EditAndApply <==> flow is TakingLock && event
            == (EditEvent::LockTried { taken: true }),
        edit_next(flow, event).1 is EditAndApply ==> edit_next(flow, event).0 is Applying,
        edit_next(EditFlow::TakingLock, EditEvent::LockTried { taken: false }) == (
            EditFlow::Finished,
            EditAction::Finish(Ok(ValidationOutcome::Busy)),
        ),
        edit_next(EditFlow::Applying, EditEvent::Applied(applied)) == (
            EditFlow::Finished,
            EditAction::Finish(applied),
        ),
        edit_next(flow, event).1 is Finish ==> !(flow is Finished),
        !(edit_next(flow, event).1 is TryLock),
        edit_next(flow, event).1 is Ignore ==> edit_next(flow, event).0 == flow && !(
        flow is TakingLock && event is LockTried) && !(flow is Applying && event is Applied),
{
}

/// The core is told of a Run file once it is written; it is restarted only
/// where it did not take the file, and what has been generated is taken over
/// only where it did one or the other.
pub proof fn law_core_is_restarted_only_if_it_does_not_reload(
    unwritten: DraftFate,
    flow: RunOnFlow,
    event: RunOnEvent,
)
    ensures
        ({
            let next = run_on_next(unwritten, flow, event);
            match next.1 {
                RunOnAction::WriteRunFile => false,
                RunOnAction::Reload => {
                    &&& flow is Writing && event is RunFileWritten && event->RunFileWritten_0 is Ok
                    &&& next.0 is Reloading
                },
                RunOnAction::Restart => {
                    &&& flow is Reloading
                    &&& event matches RunOnEvent::Reloaded(Err(_))
                    &&& next.0 is Restarting
                },
                RunOnAction::Finish { result, fate } => {
                    &&& next.0 is Finished
                    &&& result is Ok <==> {
                        ||| flow is Reloading && event is Reloaded && event->Reloaded_0 is Ok
                        ||| flow is Restarting && event is Restarted && event->Restarted_0 is Ok
                    }
                    &&& result is Ok ==> fate is Apply
                    &&& result matches Err(error) ==> match event {
                        RunOnEvent::RunFileWritten(Err(cause)) => flow is Writing && error == cause
                            && fate == unwritten,
                        RunOnEvent::Untellable(failure) => flow is Reloading && error
                            == CoreError::Outside(failure) && fate == unwritten,
                        RunOnEvent::Restarted(Err(reason)) => flow is Restarting && error
                            == CoreError::Plain(
                            Message::ApplyFailed { reason: Box::new(reason) },
                        ) && fate is Discard,
                        _ => false,
                    }
                },
                RunOnAction::Ignore => {
                    &&& next.0 == flow
                    &&& !(flow is Writing && event is RunFileWritten)
                    &&& !(flow is Reloading && (event is Untellable || event is Reloaded))
                    &&& !(flow is Restarting && event is Restarted)
                },
            }
        }),
{
}

} // verus!
