//! Changing the settings in steps that are undone when one of them fails.

use crate::effects::Effect;
use crate::error::CoreError;
use crate::rollback::{RollbackFailures, RollbackPart};
use vstd::prelude::*;

verus! {

/// Which settings a change edits.
#[derive(Debug, Clone, Copy, PartialEq, Eq, Structural)]
pub enum ChangeKind {
    /// Those of the core.
    Clash,
    /// Those of the application.
    Verge,
    /// Both, and with them what the core is to run on.
    TunAndIcs,
}

/// Settings that have a draft to take over.
#[derive(Debug, Clone, Copy, PartialEq, Eq, Structural)]
pub enum DraftStore {
    Clash,
    Verge,
}

/// What becomes of the edited settings at the end of a change.
#[derive(Debug, Clone, Copy, PartialEq, Eq, Structural)]
pub struct DraftHandling {
    /// Whether, after a failure, the core's settings of before are taken over.
    pub restore_clash: bool,
    /// Whether, after a failure, the application's settings of before are
    /// taken over.
    pub restore_verge: bool,
    /// Whether, after a failure, the draft of what the core is to run on is
    /// what it ran on before.
    pub restore_runtime_draft: bool,
    /// Whose draft is taken over once everything has been done.
    pub commit: Option<DraftStore>,
}

/// Says what becomes of the edited settings. A change of TUN and ICS recovery
/// takes its drafts over in one of its steps, and leaves none to the end.
pub fn draft_handling(kind: ChangeKind) -> (r: DraftHandling)
    ensures
        r.restore_clash == !(kind is Verge),
        r.restore_verge == !(kind is Clash),
        r.restore_runtime_draft == (kind is TunAndIcs),
        r.commit == match kind {
            ChangeKind::Clash => Some(DraftStore::Clash),
            ChangeKind::Verge => Some(DraftStore::Verge),
            ChangeKind::TunAndIcs => None,
        },
{
    match kind {
        ChangeKind::Clash => DraftHandling {
            restore_clash: true,
            restore_verge: false,
            restore_runtime_draft: false,
            commit: Some(DraftStore::Clash),
        },
        ChangeKind::Verge => DraftHandling {
            restore_clash: false,
            restore_verge: true,
            restore_runtime_draft: false,
            commit: Some(DraftStore::Verge),
        },
        ChangeKind::TunAndIcs => DraftHandling {
            restore_clash: true,
            restore_verge: true,
            restore_runtime_draft: true,
            commit: None,
        },
    }
}

/// What a change of the settings consists of.
#[derive(Debug)]
pub struct Plan {
    /// Whether the ICS recovery target is read beforehand, to be returned to.
    pub snapshot: bool,
    /// What is done, in this order, once the settings have been edited.
    pub steps: Vec<Effect>,
    /// How many steps have to be done before undoing takes more than
    /// `undo_early`.
    pub threshold: usize,
    /// What is undone, in this order, after a failure before the threshold.
    pub undo_early: Vec<RollbackPart>,
    /// What is undone, in this order, after a later failure.
    pub undo: Vec<RollbackPart>,
}

/// Where a change stands.
#[derive(Debug)]
pub enum TransactionFlow {
    /// The recovery target is being read.
    Snapshotting,
    /// The settings are being edited.
    Editing,
    /// Step `index` is being done.
    Doing { index: usize },
    /// A step failed with `error`, and the settings are being put back.
    Reverting { full: bool, error: CoreError },
    /// Part `index` of what is undone is being undone.
    Undoing { full: bool, index: usize, error: CoreError, failures: RollbackFailures },
    Finished,
}

/// What to do next.
#[derive(Debug)]
pub enum TransactionAction {
    SnapshotIcs,
    EditDrafts,
    Do(Effect),
    /// To put the settings of before in place of the edited ones.
    RevertDrafts,
    Undo(RollbackPart),
    /// Everything has been done.
    Commit,
    /// Nothing has been changed.
    Refuse(CoreError),
    /// A step failed, and what was done has been undone, but for `failures`.
    RolledBack { error: CoreError, failures: RollbackFailures },
    Ignore,
}

impl Plan {
    /// What is undone after a failure.
    pub open spec fn undo_parts(self, full: bool) -> Seq<RollbackPart> {
        if full {
            self.undo@
        } else {
            self.undo_early@
        }
    }

    /// Step `index` is done, or everything has been.
    pub open spec fn step_at(self, index: int) -> (TransactionFlow, TransactionAction) {
        if index < self.steps@.len() {
            (
                TransactionFlow::Doing { index: index as usize },
                TransactionAction::Do(self.steps@[index]),
            )
        } else {
            (TransactionFlow::Finished, TransactionAction::Commit)
        }
    }

    /// Part `index` is undone, or everything has been.
    pub open spec fn undo_at(
        self,
        full: bool,
        index: int,
        error: CoreError,
        failures: RollbackFailures,
    ) -> (TransactionFlow, TransactionAction) {
        if index < self.undo_parts(full).len() {
            (
                TransactionFlow::Undoing { full, index: index as usize, error, failures },
                TransactionAction::Undo(self.undo_parts(full)[index]),
            )
        } else {
            (TransactionFlow::Finished, TransactionAction::RolledBack { error, failures })
        }
    }

    /// The part that follows part `index`: where the Run file of before could
    /// not be written, the core is not made to run on it.
    pub open spec fn part_after(self, full: bool, index: int, undone: bool) -> int {
        let parts = self.undo_parts(full);
        if !undone && parts[index] is RuntimeFile && index + 1 < parts.len() && parts[index
            + 1] is Runtime {
            index + 2
        } else {
            index + 1
        }
    }

    /// Where a change goes from `flow` once what it stands at has ended in
    /// `done`.
    pub open spec fn transaction_next(self, flow: TransactionFlow, done: Result<(), CoreError>) -> (
        TransactionFlow,
        TransactionAction,
    ) {
        match flow {
            TransactionFlow::Snapshotting => match done {
                Err(error) => (TransactionFlow::Finished, TransactionAction::Refuse(error)),
                Ok(()) => (TransactionFlow::Editing, TransactionAction::EditDrafts),
            },
            TransactionFlow::Editing => self.step_at(0),
            TransactionFlow::Doing { index } => match done {
                Ok(()) => self.step_at(index + 1),
                Err(error) => (
                    TransactionFlow::Reverting { full: index >= self.threshold, error },
                    TransactionAction::RevertDrafts,
                ),
            },
            TransactionFlow::Reverting { full, error } => self.undo_at(
                full,
                0,
                error,
                RollbackFailures::Nothing,
            ),
            TransactionFlow::Undoing { full, index, error, failures } => if index
                < self.undo_parts(full).len() {
                self.undo_at(
                    full,
                    self.part_after(full, index as int, done is Ok),
                    error,
                    failures.and_maybe(self.undo_parts(full)[index as int], done),
                )
            } else {
                (TransactionFlow::Finished, TransactionAction::RolledBack { error, failures })
            },
            TransactionFlow::Finished => (flow, TransactionAction::Ignore),
        }
    }

    /// Begins a change.
    pub fn begin(&self) -> (r: (TransactionFlow, TransactionAction))
        ensures
            r == (if self.snapshot {
                (TransactionFlow::Snapshotting, TransactionAction::SnapshotIcs)
            } else {
                (TransactionFlow::Editing, TransactionAction::EditDrafts)
            }),
    {
        if self.snapshot {
            (TransactionFlow::Snapshotting, TransactionAction::SnapshotIcs)
        } else {
            (TransactionFlow::Editing, TransactionAction::EditDrafts)
        }
    }

    fn do_step(&self, index: usize) -> (r: (TransactionFlow, TransactionAction))
        ensures
            r == self.step_at(index as int),
    {
        if index < self.steps.len() {
            (TransactionFlow::Doing { index }, TransactionAction::Do(self.steps[index]))
        } else {
            (TransactionFlow::Finished, TransactionAction::Commit)
        }
    }

    fn undo_part(
        &self,
        full: bool,
        index: usize,
        error: CoreError,
        failures: RollbackFailures,
    ) -> (r: (TransactionFlow, TransactionAction))
        ensures
            r == self.undo_at(full, index as int, error, failures),
    {
        let parts = if full {
            &self.undo
        } else {
            &self.undo_early
        };
        if index < parts.len() {
            let part = parts[index];
            (
                TransactionFlow::Undoing { full, index, error, failures },
                TransactionAction::Undo(part),
            )
        } else {
            (TransactionFlow::Finished, TransactionAction::RolledBack { error, failures })
        }
    }

    /// Takes a change one step further.
    pub fn transaction_step(&self, flow: TransactionFlow, done: Result<(), CoreError>) -> (r: (
        TransactionFlow,
        TransactionAction,
    ))
        ensures
            r == self.transaction_next(flow, done),
    {
        match flow {
            TransactionFlow::Snapshotting => match done {
                Err(error) => (TransactionFlow::Finished, TransactionAction::Refuse(error)),
                Ok(()) => (TransactionFlow::Editing, TransactionAction::EditDrafts),
            },
            TransactionFlow::Editing => self.do_step(0),
            TransactionFlow::Doing { index } => match done {
                Ok(()) => if index < self.steps.len() {
                    self.do_step(index + 1)
                } else {
                    (TransactionFlow::Finished, TransactionAction::Commit)
                },
                Err(error) => (
                    TransactionFlow::Reverting { full: index >= self.threshold, error },
                    TransactionAction::RevertDrafts,
                ),
            },
            TransactionFlow::Reverting { full, error } => self.undo_part(
                full,
                0,
                error,
                RollbackFailures::Nothing,
            ),
            TransactionFlow::Undoing { full, index, error, failures } => {
                let parts = if full {
                    &self.undo
                } else {
                    &self.undo_early
                };
                if index >= parts.len() {
                    return (
                        TransactionFlow::Finished,
                        TransactionAction::RolledBack { error, failures },
                    );
                }
                let part = parts[index];
                let preparing = match part {
                    RollbackPart::RuntimeFile => true,
                    _ => false,
                };
                let mut next: usize = index + 1;
                if done.is_err() && preparing && next < parts.len() {
                    match parts[next] {
                        RollbackPart::Runtime => {
                            next = next + 1;
                        },
                        _ => {},
                    }
                }
                self.undo_part(full, next, error, failures.after(part, done))
            },
            TransactionFlow::Finished => (TransactionFlow::Finished, TransactionAction::Ignore),
        }
    }
}

/// The failures once `outcomes` have come in for `parts`, one for each.
pub open spec fn gathered(
    failures: RollbackFailures,
    parts: Seq<RollbackPart>,
    outcomes: Seq<Result<(), CoreError>>,
) -> RollbackFailures
    decreases parts.len(),
{
    if parts.len() == 0 || outcomes.len() == 0 {
        failures
    } else {
        gathered(
            failures.and_maybe(parts[0], outcomes[0]),
            parts.drop_first(),
            outcomes.drop_first(),
        )
    }
}

/// What a change does and where it stands after `outcomes` have come in.
pub open spec fn after_outcomes(
    plan: Plan,
    at: (TransactionFlow, TransactionAction),
    outcomes: Seq<Result<(), CoreError>>,
) -> (TransactionFlow, TransactionAction)
    decreases outcomes.len(),
{
    if outcomes.len() == 0 {
        at
    } else {
        after_outcomes(plan, plan.transaction_next(at.0, outcomes[0]), outcomes.drop_first())
    }
}

/// A change whose steps all succeed is committed after the last of them, and
/// each step was done in its turn.
pub proof fn law_success_does_every_step_and_commits(plan: Plan, index: int, n: int)
    requires
        0 <= index <= n <= plan.steps@.len(),
    ensures
        after_outcomes(
            plan,
            plan.step_at(index),
            Seq::new((n - index) as nat, |i: int| Ok::<(), CoreError>(())),
        ) == plan.step_at(n),
        plan.step_at(plan.steps@.len() as int) == (
            TransactionFlow::Finished,
            TransactionAction::Commit,
        ),
        n < plan.steps@.len() ==> plan.step_at(n).1 == TransactionAction::Do(plan.steps@[n]),
    decreases n - index,
{
    let outcomes = Seq::new((n - index) as nat, |i: int| Ok::<(), CoreError>(()));
    assert(plan.steps.len() == plan.steps@.len());
    if index < n {
        law_success_does_every_step_and_commits(plan, index + 1, n);
        assert(outcomes.drop_first() =~= Seq::new(
            (n - (index + 1)) as nat,
            |i: int| Ok::<(), CoreError>(()),
        ));
        assert(plan.transaction_next(plan.step_at(index).0, outcomes[0]) == plan.step_at(
            index + 1,
        ));
    }
}

/// A step that fails is followed by no other step: the settings are put back,
/// and everything that the failure calls for is undone.
pub proof fn law_failed_step_leads_to_undoing(plan: Plan, index: usize, error: CoreError)
    ensures
        ({
            let failed = plan.transaction_next(
                TransactionFlow::Doing { index },
                Err::<(), CoreError>(error),
            );
            let full = index >= plan.threshold;
            &&& failed.1 is RevertDrafts
            &&& forall|done: Result<(), CoreError>| #[trigger]
                plan.transaction_next(failed.0, done) == plan.undo_at(
                    full,
                    0,
                    error,
                    RollbackFailures::Nothing,
                )
        }),
{
}

/// What a change does, from `at` on, while `outcomes` come in.
pub open spec fn actions_during(
    plan: Plan,
    at: (TransactionFlow, TransactionAction),
    outcomes: Seq<Result<(), CoreError>>,
) -> Seq<TransactionAction>
    decreases outcomes.len(),
{
    if outcomes.len() == 0 {
        seq![at.1]
    } else {
        seq![at.1] + actions_during(
            plan,
            plan.transaction_next(at.0, outcomes[0]),
            outcomes.drop_first(),
        )
    }
}

/// Whether part `i` is not undone, where undoing each part that is undone
/// comes to what `outcomes` says: it would have the core run on a Run file that
/// could not be written.
pub open spec fn left_out(
    parts: Seq<RollbackPart>,
    outcomes: Seq<Result<(), CoreError>>,
    i: int,
) -> bool {
    0 < i < parts.len() && parts[i] is Runtime && parts[i - 1] is RuntimeFile && outcomes[i
        - 1] is Err
}

/// The parts from `index` on that are undone, in their turn.
pub open spec fn turns(
    parts: Seq<RollbackPart>,
    outcomes: Seq<Result<(), CoreError>>,
    index: int,
) -> Seq<int>
    decreases parts.len() - index,
{
    if index >= parts.len() {
        Seq::empty()
    } else if left_out(parts, outcomes, index) {
        turns(parts, outcomes, index + 1)
    } else {
        seq![index] + turns(parts, outcomes, index + 1)
    }
}

proof fn lemma_turns(
    parts: Seq<RollbackPart>,
    outcomes: Seq<Result<(), CoreError>>,
    index: int,
)
    requires
        0 <= index <= parts.len(),
    ensures
        forall|i: int| #[trigger]
            turns(parts, outcomes, index).contains(i) <==> index <= i < parts.len() && !left_out(
                parts,
                outcomes,
                i,
            ),
        forall|a: int, b: int|
            0 <= a < b < turns(parts, outcomes, index).len() ==> #[trigger] turns(
                parts,
                outcomes,
                index,
            )[a] < #[trigger] turns(parts, outcomes, index)[b],
    decreases parts.len() - index,
{
    let all = turns(parts, outcomes, index);
    if index < parts.len() {
        let later = turns(parts, outcomes, index + 1);
        lemma_turns(parts, outcomes, index + 1);
        if !left_out(parts, outcomes, index) {
            assert(all[0] == index);
            assert forall|i: int| #[trigger] all.contains(i) <==> i == index || later.contains(
                i,
            ) by {
                if later.contains(i) {
                    let k = choose|k: int| 0 <= k < later.len() && later[k] == i;
                    assert(all[k + 1] == i);
                }
                if all.contains(i) && i != index {
                    let k = choose|k: int| 0 <= k < all.len() && all[k] == i;
                    assert(later[k - 1] == i);
                }
            }
            assert forall|a: int, b: int| 0 <= a < b < all.len() implies #[trigger] all[a]
                < #[trigger] all[b] by {
                assert(all[b] == later[b - 1]);
                if a == 0 {
                    assert(later.contains(later[b - 1]));
                } else {
                    assert(all[a] == later[a - 1]);
                }
            }
        }
    }
}

/// Whatever goes wrong while undoing, and whatever the plan, every part is
/// undone in its turn; only the core is not made to run on a Run file that
/// could not be written. Then the change ends, and what is reported is the
/// step's error with exactly the parts that failed. Undoing part `i`, if it is
/// undone, comes to `outcomes[i]`.
pub proof fn law_every_part_is_undone(
    plan: Plan,
    full: bool,
    index: int,
    error: CoreError,
    failures: RollbackFailures,
    outcomes: Seq<Result<(), CoreError>>,
)
    requires
        0 <= index <= plan.undo_parts(full).len(),
        outcomes.len() == plan.undo_parts(full).len(),
        !left_out(plan.undo_parts(full), outcomes, index),
    ensures
        ({
            let parts = plan.undo_parts(full);
            let begun = plan.undo_at(full, index, error, failures);
            let turns = turns(parts, outcomes, index);
            let undone = turns.map_values(|i: int| parts[i]);
            let came_in = turns.map_values(|i: int| outcomes[i]);
            let end = TransactionAction::RolledBack {
                error,
                failures: gathered(failures, undone, came_in),
            };
            &&& forall|i: int| #[trigger]
                turns.contains(i) <==> index <= i < parts.len() && !left_out(parts, outcomes, i)
            &&& forall|a: int, b: int|
                0 <= a < b < turns.len() ==> #[trigger] turns[a] < #[trigger] turns[b]
            &&& actions_during(plan, begun, came_in) == undone.map_values(
                |part: RollbackPart| TransactionAction::Undo(part),
            ).push(end)
            &&& after_outcomes(plan, begun, came_in) == (TransactionFlow::Finished, end)
        }),
    decreases plan.undo_parts(full).len() - index,
{
    let parts = plan.undo_parts(full);
    let begun = plan.undo_at(full, index, error, failures);
    let all = turns(parts, outcomes, index);
    let undone = all.map_values(|i: int| parts[i]);
    let came_in = all.map_values(|i: int| outcomes[i]);
    let end = TransactionAction::RolledBack {
        error,
        failures: gathered(failures, undone, came_in),
    };
    let expected = undone.map_values(|part: RollbackPart| TransactionAction::Undo(part)).push(end);
    lemma_turns(parts, outcomes, index);
    assert(plan.undo.len() == plan.undo@.len() && plan.undo_early.len() == plan.undo_early@.len());
    if index < parts.len() {
        let next = failures.and_maybe(parts[index], outcomes[index]);
        let after = plan.part_after(full, index, outcomes[index] is Ok);
        law_every_part_is_undone(plan, full, after, error, next, outcomes);
        let later = turns(parts, outcomes, after);
        assert(turns(parts, outcomes, index + 1) == later);
        let later_undone = later.map_values(|i: int| parts[i]);
        let later_in = later.map_values(|i: int| outcomes[i]);
        assert(undone =~= seq![parts[index]] + later_undone);
        assert(came_in =~= seq![outcomes[index]] + later_in);
        assert(undone.drop_first() =~= later_undone);
        assert(came_in.drop_first() =~= later_in);
        assert(came_in[0] == outcomes[index] && undone[0] == parts[index]);
        assert(plan.transaction_next(begun.0, outcomes[index]) == plan.undo_at(
            full,
            after,
            error,
            next,
        ));
        assert(actions_during(plan, begun, came_in) =~= expected);
    } else {
        assert(undone =~= Seq::empty());
        assert(came_in =~= Seq::empty());
        assert(actions_during(plan, begun, came_in) =~= expected);
    }
}

/// Where the Run file of before could not be written, that is reported and the
/// core is not made to run on it; the parts after that are still undone.
pub proof fn law_unwritten_run_file_is_not_run_on(
    plan: Plan,
    full: bool,
    index: usize,
    error: CoreError,
    failures: RollbackFailures,
    unwritten: CoreError,
)
    requires
        index + 1 < plan.undo_parts(full).len(),
        plan.undo_parts(full)[index as int] is RuntimeFile,
        plan.undo_parts(full)[index + 1] is Runtime,
    ensures
        plan.transaction_next(
            (TransactionFlow::Undoing { full, index, error, failures }),
            Err::<(), CoreError>(unwritten),
        ) == plan.undo_at(
            full,
            index + 2,
            error,
            failures.and(RollbackPart::RuntimeFile, unwritten),
        ),
{
}

/// A change that is refused because the recovery target cannot be read has
/// changed nothing: the settings were not edited.
pub proof fn law_refused_change_edits_nothing(plan: Plan, error: CoreError)
    ensures
        plan.transaction_next(
            TransactionFlow::Snapshotting,
            Err::<(), CoreError>(error),
        ) == (TransactionFlow::Finished, TransactionAction::Refuse(error)),
{
}

/// A change that fails before its threshold has the early parts undone, and one
/// that fails later the others.
pub proof fn law_threshold_decides_what_is_undone(plan: Plan, index: usize, error: CoreError)
    ensures
        plan.undo_parts(true) == plan.undo@,
        plan.undo_parts(false) == plan.undo_early@,
        plan.transaction_next(
            (TransactionFlow::Doing { index }),
            Err::<(), CoreError>(error),
        ) == (
            (TransactionFlow::Reverting { full: index >= plan.threshold, error }),
            TransactionAction::RevertDrafts,
        ),
{
}

/// A change begins with reading the recovery target where it is to be returned
/// to, then edits the settings, then does its steps in turn, from the first
/// on; each step that went well is followed by the next.
pub proof fn law_change_goes_step_by_step(plan: Plan, index: usize, edited: Result<(), CoreError>)
    requires
        index < plan.steps@.len(),
    ensures
        plan.transaction_next(TransactionFlow::Snapshotting, Ok::<(), CoreError>(())) == (
            TransactionFlow::Editing,
            TransactionAction::EditDrafts,
        ),
        plan.transaction_next(TransactionFlow::Editing, edited) == (
            (TransactionFlow::Doing { index: 0 }),
            TransactionAction::Do(plan.steps@[0]),
        ),
        index + 1 < plan.steps@.len() ==> plan.transaction_next(
            (TransactionFlow::Doing { index }),
            Ok::<(), CoreError>(()),
        ) == (
            (TransactionFlow::Doing { index: (index + 1) as usize }),
            TransactionAction::Do(plan.steps@[index + 1]),
        ),
        index + 1 == plan.steps@.len() ==> plan.transaction_next(
            (TransactionFlow::Doing { index }),
            Ok::<(), CoreError>(()),
        ) == (TransactionFlow::Finished, TransactionAction::Commit),
        plan.transaction_next(TransactionFlow::Finished, edited) == (
            TransactionFlow::Finished,
            TransactionAction::Ignore,
        ),
{
    assert(plan.steps.len() == plan.steps@.len());
}

/// Undoing begins with the first part, and reports the step's error: at once,
/// where nothing is to be undone.
pub proof fn law_undoing_begins_with_the_first_part(
    plan: Plan,
    full: bool,
    error: CoreError,
    reverted: Result<(), CoreError>,
)
    ensures
        ({
            let parts = if full {
                plan.undo@
            } else {
                plan.undo_early@
            };
            let next = plan.transaction_next(TransactionFlow::Reverting { full, error }, reverted);
            &&& parts.len() == 0 ==> next == (
                TransactionFlow::Finished,
                TransactionAction::RolledBack { error, failures: RollbackFailures::Nothing },
            )
            &&& parts.len() > 0 ==> next == (
                TransactionFlow::Undoing {
                    full,
                    index: 0,
                    error,
                    failures: RollbackFailures::Nothing,
                },
                TransactionAction::Undo(parts[0]),
            )
        }),
{
}

} // verus!
