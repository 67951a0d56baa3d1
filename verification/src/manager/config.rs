//! Bringing the configuration that the core runs on up to date.

use super::{CoreManager, RunningMode};
use crate::error::{note_error, CoreError, Failure, Message, Note};
use crate::platform::Platform;
use crate::rollback::{add_failures, RollbackFailures, RollbackPart};
use crate::service::ics::WindowsIcsRecoveryTransaction;
use crate::service::scm::windows_ics_service_sync_required;
use crate::settings::IRuntime;
use crate::tun::windows_tun_changed;
use crate::validation::{ValidationOutcome, ValidationSkipReason};
use crate::yaml::mapping_clone;
use serde_yaml_ng::Mapping;
use vstd::prelude::*;

verus! {

/// Where falling back to the core's plain settings stands.
#[derive(Debug, Clone, Copy, PartialEq, Eq, Structural)]
pub enum DefaultConfigFlow {
    /// They are being saved as what the core runs on.
    Saving,
    Finished,
}

/// What to do next.
pub enum DefaultConfigAction {
    /// To let the core's configuration be this, and save it.
    Save(IRuntime),
    /// To tell the user why, and end.
    Notify,
    Fail(CoreError),
    Ignore,
}

impl CoreManager {
    /// Begins to let the core run on its plain settings.
    pub fn use_default_config(&self, clash_config: &Mapping) -> (r: (
        DefaultConfigFlow,
        DefaultConfigAction,
    ))
        ensures
            r == (
                DefaultConfigFlow::Saving,
                DefaultConfigAction::Save((IRuntime { config: Some(*clash_config) })),
            ),
    {
        let config = Some(mapping_clone(clash_config));
        (DefaultConfigFlow::Saving, DefaultConfigAction::Save(IRuntime { config }))
    }

    /// Takes in how saving them went: the user is told why only where they
    /// were saved.
    pub fn default_config_step(&self, flow: DefaultConfigFlow, saved: Result<(), Failure>) -> (r: (
        DefaultConfigFlow,
        DefaultConfigAction,
    ))
        ensures
            r == (match (flow, saved) {
                (DefaultConfigFlow::Saving, Ok(())) => (
                    DefaultConfigFlow::Finished,
                    DefaultConfigAction::Notify,
                ),
                (DefaultConfigFlow::Saving, Err(failure)) => (
                    DefaultConfigFlow::Finished,
                    DefaultConfigAction::Fail(CoreError::Outside(failure)),
                ),
                (DefaultConfigFlow::Finished, _) => (flow, DefaultConfigAction::Ignore),
            }),
    {
        match (flow, saved) {
            (DefaultConfigFlow::Saving, Ok(())) => (
                DefaultConfigFlow::Finished,
                DefaultConfigAction::Notify,
            ),
            (DefaultConfigFlow::Saving, Err(failure)) => (
                DefaultConfigFlow::Finished,
                DefaultConfigAction::Fail(CoreError::Outside(failure)),
            ),
            (DefaultConfigFlow::Finished, _) => (flow, DefaultConfigAction::Ignore),
        }
    }

    /// Whether the last update lies less than `debounce` before `now`.
    pub open spec fn updated_lately(self, now: u64, debounce: u64) -> bool {
        match self.last_update {
            Some(last) => if now >= last {
                now - last < debounce
            } else {
                0 < debounce
            },
            None => false,
        }
    }

    /// The manager once the configuration has been brought up to date at
    /// `now`.
    pub open spec fn updated_at(self, now: u64) -> Self {
        CoreManager { last_update: Some(now), ..self }
    }

    /// Whether it is time for another update; if so, it counts as made now.
    pub fn should_update_config(&mut self, now: u64, debounce: u64) -> (r: bool)
        ensures
            r == !old(self).updated_lately(now, debounce),
            *final(self) == (if r {
                old(self).updated_at(now)
            } else {
                *old(self)
            }),
    {
        match self.get_last_update() {
            Some(last) => if now.saturating_sub(last) < debounce {
                return false;
            },
            None => {},
        }
        self.set_last_update(now);
        true
    }
}

/// Where an update stands.
#[derive(Debug, Clone, Copy, PartialEq, Eq, Structural)]
pub enum UpdateFlow {
    /// Whether the application is about to exit is being asked.
    CheckingExit { force: bool },
    /// The configuration lock is tried.
    TakingLock { force: bool },
    /// The configuration is being generated and applied.
    Performing,
    Finished,
}

/// What comes back from outside.
#[derive(Debug)]
pub enum UpdateEvent {
    Exiting(bool),
    /// Whether the lock was free, and the moment.
    LockTried { taken: bool, now: u64 },
    Performed(Result<ValidationOutcome, CoreError>),
}

/// What to do next. What is held is given back with `Finish`.
#[derive(Debug)]
pub enum UpdateAction {
    QueryExiting,
    TryLock,
    Perform,
    Finish(Result<ValidationOutcome, CoreError>),
    Ignore,
}

impl CoreManager {
    /// What follows once the configuration lock is held: an update that is not
    /// forced and comes too soon after another is skipped.
    pub open spec fn update_admitted(self, force: bool, now: u64, debounce: u64) -> (
        Self,
        UpdateFlow,
        UpdateAction,
    ) {
        if !force && self.updated_lately(now, debounce) {
            (
                self,
                UpdateFlow::Finished,
                UpdateAction::Finish(
                    Ok(ValidationOutcome::Skipped { reason: ValidationSkipReason::Debounced }),
                ),
            )
        } else {
            (self.updated_at(now), UpdateFlow::Performing, UpdateAction::Perform)
        }
    }

    /// Where an update goes from `flow` on `event`.
    pub open spec fn update_next(self, debounce: u64, flow: UpdateFlow, event: UpdateEvent) -> (
        Self,
        UpdateFlow,
        UpdateAction,
    ) {
        match (flow, event) {
            (UpdateFlow::CheckingExit { force }, UpdateEvent::Exiting(exiting)) => if exiting {
                (
                    self,
                    UpdateFlow::Finished,
                    UpdateAction::Finish(
                        Ok(ValidationOutcome::Skipped { reason: ValidationSkipReason::Exiting }),
                    ),
                )
            } else {
                (self, UpdateFlow::TakingLock { force }, UpdateAction::TryLock)
            },
            (UpdateFlow::TakingLock { force }, UpdateEvent::LockTried { taken, now }) => if taken {
                self.update_admitted(force, now, debounce)
            } else {
                (
                    self,
                    UpdateFlow::Finished,
                    UpdateAction::Finish(Ok(ValidationOutcome::Busy)),
                )
            },
            (UpdateFlow::Performing, UpdateEvent::Performed(result)) => (
                self,
                UpdateFlow::Finished,
                UpdateAction::Finish(result),
            ),
            (flow, _) => (self, flow, UpdateAction::Ignore),
        }
    }

    /// Begins an update that is made even if it comes soon after another.
    pub fn update_config_forced(&self) -> (r: (UpdateFlow, UpdateAction))
        ensures
            r == ((UpdateFlow::CheckingExit { force: true }), UpdateAction::QueryExiting),
    {
        self.update_config_with_force(true)
    }

    /// Begins an update.
    pub fn update_config_with_force(&self, force: bool) -> (r: (UpdateFlow, UpdateAction))
        ensures
            r == ((UpdateFlow::CheckingExit { force }), UpdateAction::QueryExiting),
    {
        (UpdateFlow::CheckingExit { force }, UpdateAction::QueryExiting)
    }

    /// Begins an update whose outcome is to be made an error unless it is a
    /// success.
    pub fn update_config_checked(&self) -> (r: (UpdateFlow, UpdateAction))
        ensures
            r == ((UpdateFlow::CheckingExit { force: true }), UpdateAction::QueryExiting),
    {
        self.update_config_forced()
    }

    /// Begins an update while the configuration lock is held.
    pub fn update_config_with_force_in_transaction(
        &mut self,
        force: bool,
        now: u64,
        debounce: u64,
    ) -> (r: (UpdateFlow, UpdateAction))
        ensures
            (*final(self), r.0, r.1) == old(self).update_admitted(force, now, debounce),
    {
        if !force {
            if !self.should_update_config(now, debounce) {
                return (
                    UpdateFlow::Finished,
                    UpdateAction::Finish(
                        Ok(ValidationOutcome::Skipped { reason: ValidationSkipReason::Debounced }),
                    ),
                );
            }
        } else {
            self.set_last_update(now);
        }
        (UpdateFlow::Performing, UpdateAction::Perform)
    }

    /// Begins an update while the configuration lock is held, unless the
    /// application is about to exit.
    pub fn update_config_checked_in_transaction(&mut self, exiting: bool, now: u64) -> (r: (
        UpdateFlow,
        UpdateAction,
    ))
        ensures
            (*final(self), r.0, r.1) == (if exiting {
                (
                    *old(self),
                    UpdateFlow::Finished,
                    UpdateAction::Finish(Err(CoreError::of(Note::Exiting))),
                )
            } else {
                (old(self).updated_at(now), UpdateFlow::Performing, UpdateAction::Perform)
            }),
    {
        if exiting {
            return (
                UpdateFlow::Finished,
                UpdateAction::Finish(Err(note_error(Note::Exiting))),
            );
        }
        self.set_last_update(now);
        (UpdateFlow::Performing, UpdateAction::Perform)
    }

    /// Takes an update one event further.
    pub fn update_step(&mut self, debounce: u64, flow: UpdateFlow, event: UpdateEvent) -> (r: (
        UpdateFlow,
        UpdateAction,
    ))
        ensures
            (*final(self), r.0, r.1) == old(self).update_next(debounce, flow, event),
    {
        match (flow, event) {
            (UpdateFlow::CheckingExit { force }, UpdateEvent::Exiting(exiting)) => if exiting {
                (
                    UpdateFlow::Finished,
                    UpdateAction::Finish(
                        Ok(ValidationOutcome::Skipped { reason: ValidationSkipReason::Exiting }),
                    ),
                )
            } else {
                (UpdateFlow::TakingLock { force }, UpdateAction::TryLock)
            },
            (UpdateFlow::TakingLock { force }, UpdateEvent::LockTried { taken, now }) => if taken {
                self.update_config_with_force_in_transaction(force, now, debounce)
            } else {
                (UpdateFlow::Finished, UpdateAction::Finish(Ok(ValidationOutcome::Busy)))
            },
            (UpdateFlow::Performing, UpdateEvent::Performed(result)) => (
                UpdateFlow::Finished,
                UpdateAction::Finish(result),
            ),
            (flow, _) => (flow, UpdateAction::Ignore),
        }
    }
}

/// Where generating and applying the configuration stands.
#[derive(Debug, Clone, Copy, PartialEq, Eq, Structural)]
pub enum PerformFlow {
    Generating,
    Applying,
    Finished,
}

/// What comes back from outside.
#[derive(Debug)]
pub enum PerformEvent {
    Generated(Result<(), Failure>),
    Applied(Result<ValidationOutcome, CoreError>),
}

/// What to do next.
#[derive(Debug)]
pub enum PerformAction {
    Generate,
    ApplyGenerated,
    /// `discard` is whether what has been generated is to be given up.
    Finish { result: Result<ValidationOutcome, CoreError>, discard: bool },
    Ignore,
}

/// Where generating and applying the configuration goes from `flow` on
/// `event`. A configuration that cannot be generated is an invalid one.
pub open spec fn perform_next(flow: PerformFlow, event: PerformEvent) -> (
    PerformFlow,
    PerformAction,
) {
    match (flow, event) {
        (PerformFlow::Generating, PerformEvent::Generated(generated)) => match generated {
            Err(failure) => (
                PerformFlow::Finished,
                PerformAction::Finish {
                    result: Ok(ValidationOutcome::Invalid { message: failure.summary }),
                    discard: true,
                },
            ),
            Ok(()) => (PerformFlow::Applying, PerformAction::ApplyGenerated),
        },
        (PerformFlow::Applying, PerformEvent::Applied(result)) => (
            PerformFlow::Finished,
            PerformAction::Finish { result, discard: false },
        ),
        (flow, _) => (flow, PerformAction::Ignore),
    }
}

/// Begins to generate and apply the configuration.
pub fn perform_config_update() -> (r: (PerformFlow, PerformAction))
    ensures
        r == (PerformFlow::Generating, PerformAction::Generate),
{
    (PerformFlow::Generating, PerformAction::Generate)
}

/// Takes generating and applying the configuration one event further.
pub fn perform_step(flow: PerformFlow, event: PerformEvent) -> (r: (PerformFlow, PerformAction))
    ensures
        r == perform_next(flow, event),
{
    match (flow, event) {
        (PerformFlow::Generating, PerformEvent::Generated(generated)) => match generated {
            Err(failure) => (
                PerformFlow::Finished,
                PerformAction::Finish {
                    result: Ok(ValidationOutcome::Invalid { message: failure.summary }),
                    discard: true,
                },
            ),
            Ok(()) => (PerformFlow::Applying, PerformAction::ApplyGenerated),
        },
        (PerformFlow::Applying, PerformEvent::Applied(result)) => (
            PerformFlow::Finished,
            PerformAction::Finish { result, discard: false },
        ),
        (flow, _) => (flow, PerformAction::Ignore),
    }
}

/// Where an edit of the generated configuration stands.
#[derive(Debug, Clone, Copy, PartialEq, Eq, Structural)]
pub enum EditFlow {
    /// The configuration lock is tried.
    TakingLock,
    /// The edit has been made, and is being applied.
    Applying,
    Finished,
}

/// What comes back from outside.
#[derive(Debug)]
pub enum EditEvent {
    LockTried { taken: bool },
    Applied(Result<ValidationOutcome, CoreError>),
}

/// What to do next. What is held is given back with `Finish`.
#[derive(Debug)]
pub enum EditAction {
    TryLock,
    /// To make the edit and apply what comes of it.
    EditAndApply,
    Finish(Result<ValidationOutcome, CoreError>),
    Ignore,
}

/// Where an edit goes from `flow` on `event`.
pub open spec fn edit_next(flow: EditFlow, event: EditEvent) -> (EditFlow, EditAction) {
    match (flow, event) {
        (EditFlow::TakingLock, EditEvent::LockTried { taken }) => if taken {
            (EditFlow::Applying, EditAction::EditAndApply)
        } else {
            (EditFlow::Finished, EditAction::Finish(Ok(ValidationOutcome::Busy)))
        },
        (EditFlow::Applying, EditEvent::Applied(result)) => (
            EditFlow::Finished,
            EditAction::Finish(result),
        ),
        (flow, _) => (flow, EditAction::Ignore),
    }
}

/// Begins an edit of the generated configuration.
pub fn update_runtime_config() -> (r: (EditFlow, EditAction))
    ensures
        r == (EditFlow::TakingLock, EditAction::TryLock),
{
    (EditFlow::TakingLock, EditAction::TryLock)
}

/// Takes an edit one event further.
pub fn edit_step(flow: EditFlow, event: EditEvent) -> (r: (EditFlow, EditAction))
    ensures
        r == edit_next(flow, event),
{
    match (flow, event) {
        (EditFlow::TakingLock, EditEvent::LockTried { taken }) => if taken {
            (EditFlow::Applying, EditAction::EditAndApply)
        } else {
            (EditFlow::Finished, EditAction::Finish(Ok(ValidationOutcome::Busy)))
        },
        (EditFlow::Applying, EditEvent::Applied(result)) => (
            EditFlow::Finished,
            EditAction::Finish(result),
        ),
        (flow, _) => (flow, EditAction::Ignore),
    }
}

/// What applying a configuration starts from, on Windows.
pub struct RuntimeDrafts {
    /// The configuration that the core runs on.
    pub committed: IRuntime,
    /// The one that is to be applied.
    pub latest: IRuntime,
    /// Whether the ICS recovery target was to be kept, and is to be.
    pub recovery_before: Option<bool>,
    pub recovery_now: Option<bool>,
}

/// Where applying a generated configuration stands. `schedule` is whether the
/// ICS recovery target follows a change of TUN; `snapshot` is the target to
/// return to, where it does.
#[derive(Debug)]
pub enum ApplyFlow {
    /// What the application starts from is being read.
    ReadingDrafts { schedule: bool },
    /// The recovery target is being read.
    Snapshotting,
    /// The configuration is being checked.
    Validating { snapshot: Option<WindowsIcsRecoveryTransaction> },
    /// The core is being made to run on it.
    Applying { snapshot: Option<WindowsIcsRecoveryTransaction> },
    /// It does, and the recovery target is being set.
    Configuring { snapshot: WindowsIcsRecoveryTransaction },
    /// It could not be, and the core is being made to run on its configuration
    /// of before.
    RestoringRuntime { snapshot: WindowsIcsRecoveryTransaction, error: CoreError },
    /// The recovery target is being put back.
    RestoringService { error: CoreError, failures: RollbackFailures },
    Finished,
}

/// What comes back from outside.
pub enum ApplyEvent {
    Drafts(RuntimeDrafts),
    Snapshotted(Result<WindowsIcsRecoveryTransaction, CoreError>),
    Validated(Result<ValidationOutcome, CoreError>),
    Applied(Result<(), CoreError>),
    Configured(Result<(), CoreError>),
    RuntimeRestored(Result<(), CoreError>),
    ServiceRestored(Result<(), CoreError>),
}

/// What to do next.
#[derive(Debug)]
pub enum ApplyAction {
    ReadDrafts,
    SnapshotIcs,
    Validate,
    ApplyPending,
    ConfigureIcs,
    RestoreRuntime,
    RestoreIcs(WindowsIcsRecoveryTransaction),
    /// `discard` is whether what has been generated is to be given up.
    Finish { result: Result<ValidationOutcome, CoreError>, discard: bool },
    Ignore,
}

impl CoreManager {
    /// Whether applying a configuration has to be followed by the recovery
    /// target that the service keeps.
    pub open spec fn sync_follows(self, schedule: bool, drafts: RuntimeDrafts) -> bool {
        schedule && crate::tun::tun_differs(drafts.committed, drafts.latest) && (
        self.running_mode is Service || drafts.recovery_before == Some(true) || drafts.recovery_now
            == Some(true))
    }

    /// Where applying a configuration goes from `flow` on `event`.
    pub open spec fn apply_next(self, flow: ApplyFlow, event: ApplyEvent) -> (
        ApplyFlow,
        ApplyAction,
    ) {
        match (flow, event) {
            (ApplyFlow::ReadingDrafts { schedule }, ApplyEvent::Drafts(drafts)) => {
                if self.sync_follows(schedule, drafts) {
                    (ApplyFlow::Snapshotting, ApplyAction::SnapshotIcs)
                } else {
                    (ApplyFlow::Validating { snapshot: None }, ApplyAction::Validate)
                }
            },
            (ApplyFlow::Snapshotting, ApplyEvent::Snapshotted(snapshotted)) => match snapshotted {
                Err(error) => (
                    ApplyFlow::Finished,
                    ApplyAction::Finish { result: Err(error), discard: true },
                ),
                Ok(snapshot) => (
                    ApplyFlow::Validating { snapshot: Some(snapshot) },
                    ApplyAction::Validate,
                ),
            },
            (ApplyFlow::Validating { snapshot }, ApplyEvent::Validated(validated)) => {
                match validated {
                    Ok(ValidationOutcome::Valid) => (
                        ApplyFlow::Applying { snapshot },
                        ApplyAction::ApplyPending,
                    ),
                    result => (
                        ApplyFlow::Finished,
                        ApplyAction::Finish { result, discard: true },
                    ),
                }
            },
            (ApplyFlow::Applying { snapshot }, ApplyEvent::Applied(applied)) => {
                match (applied, snapshot) {
                    (Err(error), _) => (
                        ApplyFlow::Finished,
                        ApplyAction::Finish { result: Err(error), discard: false },
                    ),
                    (Ok(()), Some(snapshot)) => (
                        ApplyFlow::Configuring { snapshot },
                        ApplyAction::ConfigureIcs,
                    ),
                    (Ok(()), None) => (
                        ApplyFlow::Finished,
                        ApplyAction::Finish {
                            result: Ok(ValidationOutcome::Valid),
                            discard: false,
                        },
                    ),
                }
            },
            (ApplyFlow::Configuring { snapshot }, ApplyEvent::Configured(configured)) => {
                match configured {
                    Ok(()) => (
                        ApplyFlow::Finished,
                        ApplyAction::Finish {
                            result: Ok(ValidationOutcome::Valid),
                            discard: false,
                        },
                    ),
                    Err(error) => (
                        ApplyFlow::RestoringRuntime { snapshot, error },
                        ApplyAction::RestoreRuntime,
                    ),
                }
            },
            (
                ApplyFlow::RestoringRuntime { snapshot, error },
                ApplyEvent::RuntimeRestored(restored),
            ) => (
                ApplyFlow::RestoringService {
                    error,
                    failures: RollbackFailures::Nothing.and_maybe(RollbackPart::Runtime, restored),
                },
                ApplyAction::RestoreIcs(snapshot),
            ),
            (
                ApplyFlow::RestoringService { error, failures },
                ApplyEvent::ServiceRestored(restored),
            ) => (
                ApplyFlow::Finished,
                ApplyAction::Finish {
                    result: Err(
                        crate::rollback::with_failures(
                            error,
                            failures.and_maybe(RollbackPart::Service, restored),
                        ),
                    ),
                    discard: false,
                },
            ),
            (flow, _) => (flow, ApplyAction::Ignore),
        }
    }

    /// Begins to apply a generated configuration, the recovery target
    /// following a change of TUN.
    pub fn apply_generate_config_inner(&self) -> (r: (ApplyFlow, ApplyAction))
        ensures
            r == (if self.platform is Windows {
                ((ApplyFlow::ReadingDrafts { schedule: true }), ApplyAction::ReadDrafts)
            } else {
                ((ApplyFlow::Validating { snapshot: None }), ApplyAction::Validate)
            }),
    {
        self.apply_generate_config_inner_with_ics_schedule(true)
    }

    /// Begins to apply a generated configuration.
    pub fn apply_generate_config_inner_with_ics_schedule(&self, schedule: bool) -> (r: (
        ApplyFlow,
        ApplyAction,
    ))
        ensures
            r == (if self.platform is Windows {
                ((ApplyFlow::ReadingDrafts { schedule }), ApplyAction::ReadDrafts)
            } else {
                ((ApplyFlow::Validating { snapshot: None }), ApplyAction::Validate)
            }),
    {
        match self.platform {
            Platform::Windows => (
                ApplyFlow::ReadingDrafts { schedule },
                ApplyAction::ReadDrafts,
            ),
            _ => (ApplyFlow::Validating { snapshot: None }, ApplyAction::Validate),
        }
    }

    /// Takes applying a configuration one event further.
    pub fn apply_step(&self, flow: ApplyFlow, event: ApplyEvent) -> (r: (ApplyFlow, ApplyAction))
        ensures
            r == self.apply_next(flow, event),
    {
        match (flow, event) {
            (ApplyFlow::ReadingDrafts { schedule }, ApplyEvent::Drafts(drafts)) => {
                let running_as_service = match self.running_mode {
                    RunningMode::Service => true,
                    _ => false,
                };
                let tun_changed = windows_tun_changed(&drafts.committed, &drafts.latest);
                if schedule && tun_changed && windows_ics_service_sync_required(
                    running_as_service,
                    drafts.recovery_before,
                    drafts.recovery_now,
                ) {
                    (ApplyFlow::Snapshotting, ApplyAction::SnapshotIcs)
                } else {
                    (ApplyFlow::Validating { snapshot: None }, ApplyAction::Validate)
                }
            },
            (ApplyFlow::Snapshotting, ApplyEvent::Snapshotted(snapshotted)) => match snapshotted {
                Err(error) => (
                    ApplyFlow::Finished,
                    ApplyAction::Finish { result: Err(error), discard: true },
                ),
                Ok(snapshot) => (
                    ApplyFlow::Validating { snapshot: Some(snapshot) },
                    ApplyAction::Validate,
                ),
            },
            (ApplyFlow::Validating { snapshot }, ApplyEvent::Validated(validated)) => {
                match validated {
                    Ok(ValidationOutcome::Valid) => (
                        ApplyFlow::Applying { snapshot },
                        ApplyAction::ApplyPending,
                    ),
                    result => (
                        ApplyFlow::Finished,
                        ApplyAction::Finish { result, discard: true },
                    ),
                }
            },
            (ApplyFlow::Applying { snapshot }, ApplyEvent::Applied(applied)) => {
                match (applied, snapshot) {
                    (Err(error), _) => (
                        ApplyFlow::Finished,
                        ApplyAction::Finish { result: Err(error), discard: false },
                    ),
                    (Ok(()), Some(snapshot)) => (
                        ApplyFlow::Configuring { snapshot },
                        ApplyAction::ConfigureIcs,
                    ),
                    (Ok(()), None) => (
                        ApplyFlow::Finished,
                        ApplyAction::Finish {
                            result: Ok(ValidationOutcome::Valid),
                            discard: false,
                        },
                    ),
                }
            },
            (ApplyFlow::Configuring { snapshot }, ApplyEvent::Configured(configured)) => {
                match configured {
                    Ok(()) => (
                        ApplyFlow::Finished,
                        ApplyAction::Finish {
                            result: Ok(ValidationOutcome::Valid),
                            discard: false,
                        },
                    ),
                    Err(error) => (
                        ApplyFlow::RestoringRuntime { snapshot, error },
                        ApplyAction::RestoreRuntime,
                    ),
                }
            },
            (
                ApplyFlow::RestoringRuntime { snapshot, error },
                ApplyEvent::RuntimeRestored(restored),
            ) => (
                ApplyFlow::RestoringService {
                    error,
                    failures: RollbackFailures::Nothing.after(RollbackPart::Runtime, restored),
                },
                ApplyAction::RestoreIcs(snapshot),
            ),
            (
                ApplyFlow::RestoringService { error, failures },
                ApplyEvent::ServiceRestored(restored),
            ) => {
                let failures = failures.after(RollbackPart::Service, restored);
                (
                    ApplyFlow::Finished,
                    ApplyAction::Finish {
                        result: Err(add_failures(error, failures)),
                        discard: false,
                    },
                )
            },
            (flow, _) => (flow, ApplyAction::Ignore),
        }
    }
}

/// Where making the core run on a configuration stands.
#[derive(Debug, Clone, Copy, PartialEq, Eq, Structural)]
pub enum RunOnFlow {
    /// The Run file is being written.
    Writing,
    /// The core is being told to read it.
    Reloading,
    /// It did not, and is being restarted.
    Restarting,
    Finished,
}

/// What comes back from outside.
#[derive(Debug)]
pub enum RunOnEvent {
    RunFileWritten(Result<(), CoreError>),
    /// The path of the Run file cannot be told to the core.
    Untellable(Failure),
    Reloaded(Result<(), Failure>),
    Restarted(Result<(), CoreError>),
}

/// What becomes of what has been generated.
#[derive(Debug, Clone, Copy, PartialEq, Eq, Structural)]
pub enum DraftFate {
    /// It is taken over as what the core runs on.
    Apply,
    /// It is given up.
    Discard,
    /// It stays as it is.
    Keep,
}

/// What to do next.
#[derive(Debug)]
pub enum RunOnAction {
    WriteRunFile,
    Reload,
    Restart,
    Finish { result: Result<(), CoreError>, fate: DraftFate },
    Ignore,
}

/// Where making the core run on a configuration goes from `flow` on `event`;
/// `unwritten` is what becomes of what has been generated where the core
/// cannot be told of it.
pub open spec fn run_on_next(unwritten: DraftFate, flow: RunOnFlow, event: RunOnEvent) -> (
    RunOnFlow,
    RunOnAction,
) {
    match (flow, event) {
        (RunOnFlow::Writing, RunOnEvent::RunFileWritten(written)) => match written {
            Err(error) => (
                RunOnFlow::Finished,
                RunOnAction::Finish { result: Err(error), fate: unwritten },
            ),
            Ok(()) => (RunOnFlow::Reloading, RunOnAction::Reload),
        },
        (RunOnFlow::Reloading, RunOnEvent::Untellable(failure)) => (
            RunOnFlow::Finished,
            RunOnAction::Finish { result: Err(CoreError::Outside(failure)), fate: unwritten },
        ),
        (RunOnFlow::Reloading, RunOnEvent::Reloaded(reloaded)) => match reloaded {
            Ok(()) => (
                RunOnFlow::Finished,
                RunOnAction::Finish { result: Ok(()), fate: DraftFate::Apply },
            ),
            Err(_) => (RunOnFlow::Restarting, RunOnAction::Restart),
        },
        (RunOnFlow::Restarting, RunOnEvent::Restarted(restarted)) => match restarted {
            Ok(()) => (
                RunOnFlow::Finished,
                RunOnAction::Finish { result: Ok(()), fate: DraftFate::Apply },
            ),
            Err(reason) => (
                RunOnFlow::Finished,
                RunOnAction::Finish {
                    result: Err(
                        CoreError::Plain(Message::ApplyFailed { reason: Box::new(reason) }),
                    ),
                    fate: DraftFate::Discard,
                },
            ),
        },
        (flow, _) => (flow, RunOnAction::Ignore),
    }
}

/// Begins to make the core run on what has been generated. Where the core
/// cannot be told of it, it is given up.
pub fn apply_pending_runtime_config() -> (r: (DraftFate, RunOnFlow, RunOnAction))
    ensures
        r == (DraftFate::Discard, RunOnFlow::Writing, RunOnAction::WriteRunFile),
{
    (DraftFate::Discard, RunOnFlow::Writing, RunOnAction::WriteRunFile)
}

/// Begins to make the core run on its configuration of before, which has been
/// put in place of what was generated.
pub fn restore_runtime_in_transaction() -> (r: (DraftFate, RunOnFlow, RunOnAction))
    ensures
        r == (DraftFate::Keep, RunOnFlow::Writing, RunOnAction::WriteRunFile),
{
    (DraftFate::Keep, RunOnFlow::Writing, RunOnAction::WriteRunFile)
}

/// Begins to make the core run on a Run file that has been written.
pub fn apply_config() -> (r: (RunOnFlow, RunOnAction))
    ensures
        r == (RunOnFlow::Reloading, RunOnAction::Reload),
{
    (RunOnFlow::Reloading, RunOnAction::Reload)
}

/// Takes making the core run on a configuration one event further.
pub fn run_on_step(unwritten: DraftFate, flow: RunOnFlow, event: RunOnEvent) -> (r: (
    RunOnFlow,
    RunOnAction,
))
    ensures
        r == run_on_next(unwritten, flow, event),
{
    match (flow, event) {
        (RunOnFlow::Writing, RunOnEvent::RunFileWritten(written)) => match written {
            Err(error) => (
                RunOnFlow::Finished,
                RunOnAction::Finish { result: Err(error), fate: unwritten },
            ),
            Ok(()) => apply_config(),
        },
        (RunOnFlow::Reloading, RunOnEvent::Untellable(failure)) => (
            RunOnFlow::Finished,
            RunOnAction::Finish { result: Err(CoreError::Outside(failure)), fate: unwritten },
        ),
        (RunOnFlow::Reloading, RunOnEvent::Reloaded(reloaded)) => match reloaded {
            Ok(()) => (
                RunOnFlow::Finished,
                RunOnAction::Finish { result: Ok(()), fate: DraftFate::Apply },
            ),
            Err(_) => (RunOnFlow::Restarting, RunOnAction::Restart),
        },
        (RunOnFlow::Restarting, RunOnEvent::Restarted(restarted)) => match restarted {
            Ok(()) => (
                RunOnFlow::Finished,
                RunOnAction::Finish { result: Ok(()), fate: DraftFate::Apply },
            ),
            Err(reason) => (
                RunOnFlow::Finished,
                RunOnAction::Finish {
                    result: Err(
                        CoreError::Plain(Message::ApplyFailed { reason: Box::new(reason) }),
                    ),
                    fate: DraftFate::Discard,
                },
            ),
        },
        (flow, _) => (flow, RunOnAction::Ignore),
    }
}

} // verus!
