//! The target of Windows Internet Connection Sharing (ICS) recovery, which the
//! service keeps and which clients change by compare-and-swap.

use super::ipc::{data_reply, no_reply, read_data, IpcResponse};
use crate::error::{in_context, note_error, CoreError, Failure, Message, Note};
use crate::text::{same_optional_text, text_view};
use vstd::prelude::*;

verus! {

/// Picks out a network connection.
#[derive(Debug, PartialEq, Eq)]
pub struct WindowsIcsConnectionSelector {
    pub guid: Option<String>,
    pub name: Option<String>,
}

/// The pair of connections that recovery shares between.
#[derive(Debug, PartialEq, Eq)]
pub struct WindowsIcsRecoveryConfig {
    pub public_connection: WindowsIcsConnectionSelector,
    pub private_connection: WindowsIcsConnectionSelector,
}

/// The recovery target at one moment; each change gives it a new generation.
#[derive(Debug, PartialEq, Eq)]
pub struct WindowsIcsRecoveryConfigSnapshot {
    pub generation: u64,
    pub config: Option<WindowsIcsRecoveryConfig>,
}

/// A change of the recovery target, meant for one generation of it.
#[derive(Debug, PartialEq, Eq)]
pub struct WindowsIcsRecoveryConfigUpdate {
    pub expected_generation: u64,
    pub config: Option<WindowsIcsRecoveryConfig>,
}

/// The view of a selector: its guid and its name.
pub type SelectorView = (Option<Seq<char>>, Option<Seq<char>>);

/// The view of a recovery target: its public and its private connection.
pub type ConfigView = (SelectorView, SelectorView);

impl View for WindowsIcsConnectionSelector {
    type V = SelectorView;

    open spec fn view(&self) -> SelectorView {
        (text_view(self.guid), text_view(self.name))
    }
}

impl View for WindowsIcsRecoveryConfig {
    type V = ConfigView;

    open spec fn view(&self) -> ConfigView {
        (self.public_connection@, self.private_connection@)
    }
}

/// The view of an optional recovery target.
pub open spec fn target_view(config: Option<WindowsIcsRecoveryConfig>) -> Option<ConfigView> {
    match config {
        Some(c) => Some(c@),
        None => None,
    }
}

impl View for WindowsIcsRecoveryConfigSnapshot {
    type V = (u64, Option<ConfigView>);

    open spec fn view(&self) -> (u64, Option<ConfigView>) {
        (self.generation, target_view(self.config))
    }
}

impl Clone for WindowsIcsConnectionSelector {
    fn clone(&self) -> (r: Self)
        ensures
            r == *self,
    {
        WindowsIcsConnectionSelector { guid: self.guid.clone(), name: self.name.clone() }
    }
}

impl Clone for WindowsIcsRecoveryConfig {
    fn clone(&self) -> (r: Self)
        ensures
            r == *self,
    {
        WindowsIcsRecoveryConfig {
            public_connection: self.public_connection.clone(),
            private_connection: self.private_connection.clone(),
        }
    }
}

fn clone_target(config: &Option<WindowsIcsRecoveryConfig>) -> (r: Option<WindowsIcsRecoveryConfig>)
    ensures
        r == *config,
{
    match config {
        Some(c) => Some(c.clone()),
        None => None,
    }
}

impl Clone for WindowsIcsRecoveryConfigSnapshot {
    fn clone(&self) -> (r: Self)
        ensures
            r == *self,
    {
        WindowsIcsRecoveryConfigSnapshot {
            generation: self.generation,
            config: clone_target(&self.config),
        }
    }
}

fn same_selector(a: &WindowsIcsConnectionSelector, b: &WindowsIcsConnectionSelector) -> (r: bool)
    ensures
        r == (a@ == b@),
{
    same_optional_text(&a.guid, &b.guid) && same_optional_text(&a.name, &b.name)
}

/// Whether two optional recovery targets are the same.
pub fn same_target(
    a: &Option<WindowsIcsRecoveryConfig>,
    b: &Option<WindowsIcsRecoveryConfig>,
) -> (r: bool)
    ensures
        r == (target_view(*a) == target_view(*b)),
{
    match (a, b) {
        (Some(x), Some(y)) => same_selector(&x.public_connection, &y.public_connection)
            && same_selector(&x.private_connection, &y.private_connection),
        (None, None) => true,
        _ => false,
    }
}

/// What undoing a change of the recovery target takes.
#[derive(Debug, Clone, Copy, PartialEq, Eq, Structural)]
pub enum WindowsIcsRollbackDecision {
    AlreadyRestored,
    CompareAndSwap { expected_generation: u64 },
    Conflict,
}

/// The view of an optional snapshot.
pub open spec fn snapshot_view(snapshot: Option<WindowsIcsRecoveryConfigSnapshot>) -> Option<
    (u64, Option<ConfigView>),
> {
    match snapshot {
        Some(s) => Some(s@),
        None => None,
    }
}

/// What undoing takes: nothing where the original target is back already, a
/// swap where what stands there is exactly what was applied, and otherwise it
/// is not ours to undo.
pub open spec fn rollback_decision(
    original: (u64, Option<ConfigView>),
    current: (u64, Option<ConfigView>),
    applied: Option<(u64, Option<ConfigView>)>,
) -> WindowsIcsRollbackDecision {
    if current.1 == original.1 {
        WindowsIcsRollbackDecision::AlreadyRestored
    } else if applied == Some(current) {
        WindowsIcsRollbackDecision::CompareAndSwap { expected_generation: current.0 }
    } else {
        WindowsIcsRollbackDecision::Conflict
    }
}

/// Decides how to get from `current` back to `original`, where `applied` is
/// what this transaction last put in place.
pub fn windows_ics_rollback_decision(
    original: &WindowsIcsRecoveryConfigSnapshot,
    current: &WindowsIcsRecoveryConfigSnapshot,
    applied: Option<&WindowsIcsRecoveryConfigSnapshot>,
) -> (r: WindowsIcsRollbackDecision)
    ensures
        r == rollback_decision(
            original@,
            current@,
            match applied {
                Some(s) => Some(s@),
                None => None,
            },
        ),
{
    if same_target(&current.config, &original.config) {
        WindowsIcsRollbackDecision::AlreadyRestored
    } else {
        match applied {
            Some(a) => if a.generation == current.generation && same_target(
                &a.config,
                &current.config,
            ) {
                WindowsIcsRollbackDecision::CompareAndSwap {
                    expected_generation: current.generation,
                }
            } else {
                WindowsIcsRollbackDecision::Conflict
            },
            None => WindowsIcsRollbackDecision::Conflict,
        }
    }
}

/// A configuration transaction that may change the recovery target, and the
/// snapshot it last applied.
#[derive(Debug)]
pub struct ActiveWindowsIcsConfigTransaction {
    pub id: u64,
    pub receipt: Option<WindowsIcsRecoveryConfigSnapshot>,
}

/// The transactions that change the recovery target, one at a time.
#[derive(Debug)]
pub struct WindowsIcsTransactions {
    pub next_id: u64,
    pub active: Option<ActiveWindowsIcsConfigTransaction>,
}

/// A snapshot to return to, good only within the transaction that took it.
#[derive(Debug)]
pub struct WindowsIcsRecoveryTransaction {
    pub original: WindowsIcsRecoveryConfigSnapshot,
    pub scope_id: u64,
}

/// Where work on the recovery target stands.
#[derive(Debug)]
pub enum IcsFlow {
    /// The current target is being read, to be replaced by `target`.
    Reading { target: Option<WindowsIcsRecoveryConfig> },
    /// The current target is being read, to be undone to `original`.
    Restoring { original: WindowsIcsRecoveryConfigSnapshot },
    /// `target` has been sent for `expected_generation`; `restored` is the
    /// generation that is being restored, if one is.
    Swapping {
        target: Option<WindowsIcsRecoveryConfig>,
        expected_generation: u64,
        restored: Option<u64>,
    },
    Finished,
}

/// What comes back from the service.
#[derive(Debug)]
pub enum IcsEvent {
    Snapshot(Result<IpcResponse<WindowsIcsRecoveryConfigSnapshot>, Failure>),
    Swapped(Result<IpcResponse<WindowsIcsRecoveryConfigSnapshot>, Failure>),
}

/// What to ask of the service next.
#[derive(Debug)]
pub enum IcsAction {
    QuerySnapshot,
    CompareAndSwap(WindowsIcsRecoveryConfigUpdate),
    Finish(Result<(), CoreError>),
    Ignore,
}

/// The reading of a snapshot reply.
pub open spec fn snapshot_reply(
    reply: Result<IpcResponse<WindowsIcsRecoveryConfigSnapshot>, Failure>,
) -> Result<WindowsIcsRecoveryConfigSnapshot, CoreError> {
    data_reply(reply, Note::IcsSnapshotUnreachable, Note::IcsSnapshotMissing)
}

/// The generation that a refusing reply names, if it does.
pub open spec fn named_generation(data: Option<WindowsIcsRecoveryConfigSnapshot>) -> Option<u64> {
    match data {
        Some(s) => Some(s.generation),
        None => None,
    }
}

/// The reading of a compare-and-swap reply. The swap took place where the
/// service reports a new generation that holds the target sent.
pub open spec fn swap_reply(
    target: Option<WindowsIcsRecoveryConfig>,
    expected_generation: u64,
    reply: Result<IpcResponse<WindowsIcsRecoveryConfigSnapshot>, Failure>,
) -> Result<WindowsIcsRecoveryConfigSnapshot, CoreError> {
    match reply {
        Err(failure) => Err(no_reply(failure, Note::IcsCasUnreachable)),
        Ok(response) => if response.code > 0 {
            Err(
                CoreError::Plain(
                    Message::IcsCasRejected {
                        text: response.message,
                        expected: expected_generation,
                        current: named_generation(response.data),
                    },
                ),
            )
        } else {
            match response.data {
                None => Err(CoreError::of(Note::IcsCasNoSnapshot)),
                Some(applied) => if applied.generation == expected_generation || target_view(
                    applied.config,
                ) != target_view(target) {
                    Err(
                        CoreError::Plain(
                            Message::IcsCasUnexpected {
                                expected: expected_generation,
                                applied: applied.generation,
                            },
                        ),
                    )
                } else {
                    Ok(applied)
                },
            }
        },
    }
}

fn read_swap(
    target: &Option<WindowsIcsRecoveryConfig>,
    expected_generation: u64,
    reply: Result<IpcResponse<WindowsIcsRecoveryConfigSnapshot>, Failure>,
) -> (r: Result<WindowsIcsRecoveryConfigSnapshot, CoreError>)
    ensures
        r == swap_reply(*target, expected_generation, reply),
{
    match reply {
        Err(failure) => Err(in_context(CoreError::Outside(failure), Note::IcsCasUnreachable)),
        Ok(response) => if response.code > 0 {
            let current = match &response.data {
                Some(s) => Some(s.generation),
                None => None,
            };
            Err(
                CoreError::Plain(
                    Message::IcsCasRejected {
                        text: response.message,
                        expected: expected_generation,
                        current,
                    },
                ),
            )
        } else {
            match response.data {
                None => Err(note_error(Note::IcsCasNoSnapshot)),
                Some(applied) => if applied.generation == expected_generation || !same_target(
                    &applied.config,
                    target,
                ) {
                    Err(
                        CoreError::Plain(
                            Message::IcsCasUnexpected {
                                expected: expected_generation,
                                applied: applied.generation,
                            },
                        ),
                    )
                } else {
                    Ok(applied)
                },
            }
        },
    }
}

/// The swap that replaces generation `expected_generation` by `target`.
pub open spec fn swap_for(
    target: Option<WindowsIcsRecoveryConfig>,
    expected_generation: u64,
) -> IcsAction {
    IcsAction::CompareAndSwap(
        WindowsIcsRecoveryConfigUpdate { expected_generation, config: target },
    )
}

/// `result`, told as part of restoring generation `restored`, if one is.
pub open spec fn restoring(restored: Option<u64>, error: CoreError) -> CoreError {
    match restored {
        Some(generation) => CoreError::Context(
            Message::IcsRestoreFrom { generation },
            Box::new(error),
        ),
        None => error,
    }
}

impl WindowsIcsTransactions {
    /// Nothing under way.
    pub fn new() -> (r: Self)
        ensures
            r.next_id == 1,
            r.active is None,
    {
        WindowsIcsTransactions { next_id: 1, active: None }
    }

    /// The snapshot that the transaction under way last applied.
    pub open spec fn receipt(self) -> Option<WindowsIcsRecoveryConfigSnapshot> {
        match self.active {
            Some(transaction) => transaction.receipt,
            None => None,
        }
    }

    /// The transactions after the one under way has applied `applied`.
    pub open spec fn with_receipt(self, applied: WindowsIcsRecoveryConfigSnapshot) -> Self {
        match self.active {
            Some(transaction) => WindowsIcsTransactions {
                active: Some(
                    ActiveWindowsIcsConfigTransaction { id: transaction.id, receipt: Some(applied) },
                ),
                ..self
            },
            None => self,
        }
    }

    /// The transactions once another has begun, under the next id and with
    /// nothing applied yet. Ids start over after the last one.
    pub open spec fn begun(self) -> Self {
        WindowsIcsTransactions {
            next_id: if self.next_id == u64::MAX {
                0
            } else {
                (self.next_id + 1) as u64
            },
            active: Some(ActiveWindowsIcsConfigTransaction { id: self.next_id, receipt: None }),
        }
    }

    /// The transactions once `id` has ended, if it was under way.
    pub open spec fn ended(self, id: u64) -> Self {
        match self.active {
            Some(transaction) => if transaction.id == id {
                WindowsIcsTransactions { active: None, ..self }
            } else {
                self
            },
            None => self,
        }
    }

    /// How undoing to what `token` holds begins.
    pub open spec fn restore_start(self, token: WindowsIcsRecoveryTransaction) -> (
        IcsFlow,
        IcsAction,
    ) {
        match self.active {
            None => (
                IcsFlow::Finished,
                IcsAction::Finish(Err(CoreError::of(Note::NoActiveIcsTransaction))),
            ),
            Some(transaction) => if transaction.id != token.scope_id {
                (
                    IcsFlow::Finished,
                    IcsAction::Finish(Err(CoreError::of(Note::ForeignIcsToken))),
                )
            } else {
                (IcsFlow::Restoring { original: token.original }, IcsAction::QuerySnapshot)
            },
        }
    }

    /// Starts a transaction and returns its id.
    pub fn begin_windows_ics_config_transaction(&mut self) -> (id: u64)
        requires
            old(self).active is None,
        ensures
            id == old(self).next_id,
            *final(self) == old(self).begun(),
    {
        let id = self.next_id;
        self.next_id = id.wrapping_add(1);
        self.active = Some(ActiveWindowsIcsConfigTransaction { id, receipt: None });
        id
    }

    /// Ends transaction `id`: with it go its receipt and every snapshot taken
    /// within it. Another transaction is left alone.
    pub fn end_windows_ics_config_transaction(&mut self, id: u64)
        ensures
            *final(self) == old(self).ended(id),
    {
        let ours = match &self.active {
            Some(transaction) => transaction.id == id,
            None => false,
        };
        if ours {
            self.active = None;
        }
    }

    /// The id of the transaction under way.
    pub fn active_windows_ics_config_transaction(&self) -> (r: Result<u64, CoreError>)
        ensures
            r == (match self.active {
                Some(transaction) => Ok(transaction.id),
                None => Err(CoreError::of(Note::NoActiveIcsTransaction)),
            }),
    {
        match &self.active {
            Some(transaction) => Ok(transaction.id),
            None => Err(note_error(Note::NoActiveIcsTransaction)),
        }
    }

    /// Makes a snapshot that was just read one to return to.
    pub fn snapshot_windows_ics_recovery(
        &self,
        reply: Result<IpcResponse<WindowsIcsRecoveryConfigSnapshot>, Failure>,
    ) -> (r: Result<WindowsIcsRecoveryTransaction, CoreError>)
        ensures
            r == (match self.active {
                None => Err(CoreError::of(Note::NoActiveIcsTransaction)),
                Some(transaction) => match snapshot_reply(reply) {
                    Err(error) => Err(error),
                    Ok(original) => Ok(
                        (WindowsIcsRecoveryTransaction { original, scope_id: transaction.id }),
                    ),
                },
            }),
    {
        match self.active_windows_ics_config_transaction() {
            Err(error) => Err(error),
            Ok(scope_id) => match windows_ics_recovery_snapshot_unlocked(reply) {
                Err(error) => Err(error),
                Ok(original) => Ok(WindowsIcsRecoveryTransaction { original, scope_id }),
            },
        }
    }

    /// Begins to make `target` the recovery target. Outside a transaction
    /// that is refused.
    pub fn configure_windows_ics_recovery_target_unlocked(
        &self,
        target: Option<WindowsIcsRecoveryConfig>,
    ) -> (r: (IcsFlow, IcsAction))
        ensures
            r == (match self.active {
                None => (
                    IcsFlow::Finished,
                    IcsAction::Finish(Err(CoreError::of(Note::NoActiveIcsTransaction))),
                ),
                Some(_) => ((IcsFlow::Reading { target }), IcsAction::QuerySnapshot),
            }),
    {
        match self.active_windows_ics_config_transaction() {
            Err(error) => (IcsFlow::Finished, IcsAction::Finish(Err(error))),
            Ok(_) => (IcsFlow::Reading { target }, IcsAction::QuerySnapshot),
        }
    }

    /// Begins to undo the recovery target to what `token` holds. Outside the
    /// transaction that took it the token is refused.
    pub fn restore_windows_ics_recovery_snapshot(
        &self,
        token: &WindowsIcsRecoveryTransaction,
    ) -> (r: (IcsFlow, IcsAction))
        ensures
            r == self.restore_start(*token),
    {
        match self.active_windows_ics_config_transaction() {
            Err(error) => (IcsFlow::Finished, IcsAction::Finish(Err(error))),
            Ok(id) => if id != token.scope_id {
                (IcsFlow::Finished, IcsAction::Finish(Err(note_error(Note::ForeignIcsToken))))
            } else {
                (IcsFlow::Restoring { original: token.original.clone() }, IcsAction::QuerySnapshot)
            },
        }
    }

    /// Where work on the recovery target goes from `flow` on `event`.
    pub open spec fn ics_next(self, flow: IcsFlow, event: IcsEvent) -> (Self, IcsFlow, IcsAction) {
        match (flow, event) {
            (IcsFlow::Reading { target }, IcsEvent::Snapshot(reply)) => match snapshot_reply(
                reply,
            ) {
                Err(error) => (self, IcsFlow::Finished, IcsAction::Finish(Err(error))),
                Ok(current) => (
                    self,
                    IcsFlow::Swapping {
                        target,
                        expected_generation: current.generation,
                        restored: None,
                    },
                    swap_for(target, current.generation),
                ),
            },
            (IcsFlow::Restoring { original }, IcsEvent::Snapshot(reply)) => match snapshot_reply(
                reply,
            ) {
                Err(error) => (self, IcsFlow::Finished, IcsAction::Finish(Err(error))),
                Ok(current) => match rollback_decision(
                    original@,
                    current@,
                    snapshot_view(self.receipt()),
                ) {
                    WindowsIcsRollbackDecision::AlreadyRestored => (
                        self,
                        IcsFlow::Finished,
                        IcsAction::Finish(Ok(())),
                    ),
                    WindowsIcsRollbackDecision::CompareAndSwap { expected_generation } => (
                        self,
                        IcsFlow::Swapping {
                            target: original.config,
                            expected_generation,
                            restored: Some(original.generation),
                        },
                        swap_for(original.config, expected_generation),
                    ),
                    WindowsIcsRollbackDecision::Conflict => (
                        self,
                        IcsFlow::Finished,
                        IcsAction::Finish(
                            Err(
                                CoreError::Plain(
                                    Message::IcsConflict {
                                        original: original.generation,
                                        current: current.generation,
                                    },
                                ),
                            ),
                        ),
                    ),
                },
            },
            (
                IcsFlow::Swapping { target, expected_generation, restored },
                IcsEvent::Swapped(reply),
            ) => match swap_reply(target, expected_generation, reply) {
                Err(error) => (
                    self,
                    IcsFlow::Finished,
                    IcsAction::Finish(Err(restoring(restored, error))),
                ),
                Ok(applied) => (
                    self.with_receipt(applied),
                    IcsFlow::Finished,
                    IcsAction::Finish(Ok(())),
                ),
            },
            (flow, _) => (self, flow, IcsAction::Ignore),
        }
    }

    /// Takes work on the recovery target one reply further.
    pub fn ics_step(&mut self, flow: IcsFlow, event: IcsEvent) -> (r: (IcsFlow, IcsAction))
        ensures
            (*final(self), r.0, r.1) == old(self).ics_next(flow, event),
    {
        match (flow, event) {
            (
                IcsFlow::Reading { target },
                IcsEvent::Snapshot(reply),
            ) => match windows_ics_recovery_snapshot_unlocked(reply) {
                Err(error) => (IcsFlow::Finished, IcsAction::Finish(Err(error))),
                Ok(current) => {
                    let config = clone_target(&target);
                    (
                        IcsFlow::Swapping {
                            target,
                            expected_generation: current.generation,
                            restored: None,
                        },
                        IcsAction::CompareAndSwap(
                            WindowsIcsRecoveryConfigUpdate {
                                expected_generation: current.generation,
                                config,
                            },
                        ),
                    )
                },
            },
            (
                IcsFlow::Restoring { original },
                IcsEvent::Snapshot(reply),
            ) => match windows_ics_recovery_snapshot_unlocked(reply) {
                Err(error) => (IcsFlow::Finished, IcsAction::Finish(Err(error))),
                Ok(current) => {
                    let applied = match &self.active {
                        Some(transaction) => transaction.receipt.as_ref(),
                        None => None,
                    };
                    match windows_ics_rollback_decision(&original, &current, applied) {
                        WindowsIcsRollbackDecision::AlreadyRestored => (
                            IcsFlow::Finished,
                            IcsAction::Finish(Ok(())),
                        ),
                        WindowsIcsRollbackDecision::CompareAndSwap { expected_generation } => {
                            let config = clone_target(&original.config);
                            (
                                IcsFlow::Swapping {
                                    target: original.config,
                                    expected_generation,
                                    restored: Some(original.generation),
                                },
                                IcsAction::CompareAndSwap(
                                    WindowsIcsRecoveryConfigUpdate { expected_generation, config },
                                ),
                            )
                        },
                        WindowsIcsRollbackDecision::Conflict => (
                            IcsFlow::Finished,
                            IcsAction::Finish(
                                Err(
                                    CoreError::Plain(
                                        Message::IcsConflict {
                                            original: original.generation,
                                            current: current.generation,
                                        },
                                    ),
                                ),
                            ),
                        ),
                    }
                },
            },
            (
                IcsFlow::Swapping { target, expected_generation, restored },
                IcsEvent::Swapped(reply),
            ) => match read_swap(&target, expected_generation, reply) {
                Err(error) => {
                    let error = match restored {
                        Some(generation) => CoreError::Context(
                            Message::IcsRestoreFrom { generation },
                            Box::new(error),
                        ),
                        None => error,
                    };
                    (IcsFlow::Finished, IcsAction::Finish(Err(error)))
                },
                Ok(applied) => {
                    let id = match &self.active {
                        Some(transaction) => Some(transaction.id),
                        None => None,
                    };
                    match id {
                        Some(id) => {
                            self.active = Some(
                                ActiveWindowsIcsConfigTransaction { id, receipt: Some(applied) },
                            );
                        },
                        None => {},
                    }
                    (IcsFlow::Finished, IcsAction::Finish(Ok(())))
                },
            },
            (flow, _) => (flow, IcsAction::Ignore),
        }
    }
}

/// Reads the reply to a request for the current recovery target.
pub fn windows_ics_recovery_snapshot_unlocked(
    reply: Result<IpcResponse<WindowsIcsRecoveryConfigSnapshot>, Failure>,
) -> (r: Result<WindowsIcsRecoveryConfigSnapshot, CoreError>)
    ensures
        r == snapshot_reply(reply),
{
    read_data(reply, Note::IcsSnapshotUnreachable, Note::IcsSnapshotMissing)
}

} // verus!
