//! What holds of the work on the ICS recovery target as a whole.

use super::ics::{
    rollback_decision, snapshot_reply, swap_for, swap_reply, target_view, ConfigView, IcsAction,
    IcsEvent, IcsFlow, WindowsIcsRecoveryConfigSnapshot, WindowsIcsRecoveryTransaction,
    WindowsIcsRollbackDecision, WindowsIcsTransactions,
};
use crate::error::{CoreError, Failure, Message, Note};
use vstd::string::*;
use vstd::prelude::*;

verus! {

/// Undoing swaps only over the exact snapshot that this transaction applied,
/// and for that snapshot's generation.
pub proof fn law_rollback_swaps_only_over_what_was_applied(
    original: (u64, Option<ConfigView>),
    current: (u64, Option<ConfigView>),
    applied: Option<(u64, Option<ConfigView>)>,
)
    ensures
        rollback_decision(original, current, applied) matches
            WindowsIcsRollbackDecision::CompareAndSwap { expected_generation } ==> applied == Some(
            current,
        ) && expected_generation == current.0 && current.1 != original.1,
        applied is None ==> !(rollback_decision(original, current, applied) is CompareAndSwap),
{
}

/// A target that someone else has put back already needs nothing, whatever
/// its generation.
pub proof fn law_restored_target_needs_nothing(
    original: (u64, Option<ConfigView>),
    current: (u64, Option<ConfigView>),
    applied: Option<(u64, Option<ConfigView>)>,
)
    ensures
        rollback_decision(original, current, applied) is AlreadyRestored <==> current.1
            == original.1,
{
}

/// A snapshot taken in one transaction is refused in every later one, as long
/// as ids have not started over.
pub proof fn law_snapshot_is_refused_after_its_transaction(
    later: WindowsIcsTransactions,
    token: WindowsIcsRecoveryTransaction,
)
    requires
        token.scope_id < later.next_id,
    ensures
        later.begun().restore_start(token) == (
            IcsFlow::Finished,
            IcsAction::Finish(Err(CoreError::of(Note::ForeignIcsToken))),
        ),
{
}

/// Between transactions every snapshot is refused.
pub proof fn law_snapshot_is_refused_between_transactions(
    before: WindowsIcsTransactions,
    token: WindowsIcsRecoveryTransaction,
)
    ensures
        before.begun().ended(before.next_id).active is None,
        before.begun().ended(before.next_id).restore_start(token) == (
            IcsFlow::Finished,
            IcsAction::Finish(Err(CoreError::of(Note::NoActiveIcsTransaction))),
        ),
{
}

/// A transaction starts without the receipt of the one before it.
pub proof fn law_receipt_does_not_outlive_its_transaction(before: WindowsIcsTransactions)
    ensures
        before.begun().receipt() is None,
        before.begun().ended(before.next_id).receipt() is None,
{
}

/// How many swaps are sent while `events` come in.
pub open spec fn swaps_sent(
    transactions: WindowsIcsTransactions,
    flow: IcsFlow,
    events: Seq<IcsEvent>,
) -> nat
    decreases events.len(),
{
    if events.len() == 0 {
        0
    } else {
        let next = transactions.ics_next(flow, events[0]);
        (if next.2 is CompareAndSwap {
            1nat
        } else {
            0nat
        }) + swaps_sent(next.0, next.1, events.drop_first())
    }
}

/// Whatever the service answers, one piece of work sends at most one swap: a
/// refused swap is not rebased on a newer generation.
pub proof fn law_at_most_one_swap_is_sent(
    transactions: WindowsIcsTransactions,
    flow: IcsFlow,
    events: Seq<IcsEvent>,
)
    ensures
        swaps_sent(transactions, flow, events) <= 1,
        flow is Swapping || flow is Finished ==> swaps_sent(transactions, flow, events) == 0,
    decreases events.len(),
{
    if events.len() > 0 {
        let next = transactions.ics_next(flow, events[0]);
        law_at_most_one_swap_is_sent(next.0, next.1, events.drop_first());
    }
}

/// A swap is sent for the generation that was just read; one that undoes, only
/// over what this transaction applied.
pub proof fn law_swap_follows_a_reading(
    transactions: WindowsIcsTransactions,
    flow: IcsFlow,
    event: IcsEvent,
)
    ensures
        transactions.ics_next(flow, event).2 matches IcsAction::CompareAndSwap(update) ==> {
            &&& event matches IcsEvent::Snapshot(reply)
            &&& snapshot_reply(reply) is Ok
            &&& snapshot_reply(reply)->Ok_0.generation == update.expected_generation
            &&& flow is Restoring ==> transactions.receipt() is Some && snapshot_reply(
                reply,
            )->Ok_0@ == transactions.receipt()->0@
        },
{
}

/// What a transaction applied, it can take back: if the service still holds
/// it, the original target is sent, and once the service reports that applied
/// the receipt holds the original target again.
pub proof fn law_own_change_can_be_undone(
    transactions: WindowsIcsTransactions,
    token: WindowsIcsRecoveryTransaction,
    read: IcsEvent,
    swapped: IcsEvent,
)
    requires
        transactions.active is Some,
        transactions.active->0.id == token.scope_id,
        transactions.receipt() is Some,
        target_view(transactions.receipt()->0.config) != target_view(token.original.config),
        read is Snapshot,
        snapshot_reply(read->Snapshot_0) is Ok,
        snapshot_reply(read->Snapshot_0)->Ok_0@ == transactions.receipt()->0@,
    ensures
        ({
            let start = transactions.restore_start(token);
            let sent = transactions.ics_next(start.0, read);
            let end = sent.0.ics_next(sent.1, swapped);
            let generation = transactions.receipt()->0.generation;
            &&& start.1 is QuerySnapshot
            &&& sent.0 == transactions
            &&& sent.2 == swap_for(token.original.config, generation)
            &&& swapped is Swapped && swap_reply(
                token.original.config,
                generation,
                swapped->Swapped_0,
            ) is Ok ==> end.2 == IcsAction::Finish(Ok(())) && end.0.receipt() is Some
                && target_view(end.0.receipt()->0.config) == target_view(token.original.config)
        }),
{
}

/// What work on the recovery target does, it does for a reason: for each thing
/// that it asks for, where it stood, what came in, and how it goes on.
pub proof fn law_target_work_acts_for_a_reason(
    transactions: WindowsIcsTransactions,
    flow: IcsFlow,
    event: IcsEvent,
)
    ensures
        ({
            let next = transactions.ics_next(flow, event);
            match next.2 {
                IcsAction::QuerySnapshot => false,
                IcsAction::CompareAndSwap(update) => {
                    &&& next.0 == transactions
                    &&& event matches IcsEvent::Snapshot(Ok(reply))
                    &&& reply.code <= 0 && reply.data is Some
                    &&& update.expected_generation == reply.data->0.generation
                    &&& match flow {
                        IcsFlow::Reading { target } => update.config == target && next.1
                            == (IcsFlow::Swapping {
                            target,
                            expected_generation: update.expected_generation,
                            restored: None,
                        }),
                        IcsFlow::Restoring { original } => {
                            &&& update.config == original.config
                            &&& target_view(reply.data->0.config) != target_view(original.config)
                            &&& transactions.active is Some
                            &&& transactions.active->0.receipt is Some
                            &&& transactions.active->0.receipt->0@ == reply.data->0@
                            &&& next.1 == (IcsFlow::Swapping {
                                target: original.config,
                                expected_generation: update.expected_generation,
                                restored: Some(original.generation),
                            })
                        },
                        _ => false,
                    }
                },
                IcsAction::Finish(Ok(_)) => {
                    &&& next.1 is Finished
                    &&& match (flow, event) {
                        (IcsFlow::Restoring { original }, IcsEvent::Snapshot(Ok(reply))) => {
                            &&& reply.code <= 0 && reply.data is Some && next.0 == transactions
                            &&& target_view(reply.data->0.config) == target_view(original.config)
                        },
                        (
                            IcsFlow::Swapping { target, expected_generation, .. },
                            IcsEvent::Swapped(Ok(reply)),
                        ) => {
                            &&& reply.code <= 0 && reply.data is Some
                            &&& reply.data->0.generation != expected_generation
                            &&& target_view(reply.data->0.config) == target_view(target)
                            &&& next.0.next_id == transactions.next_id
                            &&& next.0.active is Some <==> transactions.active is Some
                            &&& next.0.active is Some ==> next.0.active->0.id
                                == transactions.active->0.id && next.0.active->0.receipt
                                == reply.data
                        },
                        _ => false,
                    }
                },
                IcsAction::Finish(Err(error)) => {
                    &&& next.1 is Finished && next.0 == transactions
                    &&& match (flow, event) {
                        (IcsFlow::Reading { .. }, IcsEvent::Snapshot(reply)) => unread(reply)
                            == Some(error),
                        (IcsFlow::Restoring { original }, IcsEvent::Snapshot(reply)) => match unread(
                            reply,
                        ) {
                            Some(cause) => error == cause,
                            None => {
                                let current = reply->Ok_0.data->0;
                                &&& target_view(current.config) != target_view(original.config)
                                &&& !(transactions.active is Some
                                    && transactions.active->0.receipt is Some
                                    && transactions.active->0.receipt->0@ == current@)
                                &&& error == CoreError::Plain(
                                    Message::IcsConflict {
                                        original: original.generation,
                                        current: current.generation,
                                    },
                                )
                            },
                        },
                        (
                            IcsFlow::Swapping { target, expected_generation, restored },
                            IcsEvent::Swapped(reply),
                        ) => {
                            let cause = match restored {
                                None => error,
                                Some(_) => *error->Context_1,
                            };
                            &&& unswapped(target, expected_generation, reply) == Some(cause)
                            &&& restored matches Some(generation) ==> error == CoreError::Context(
                                Message::IcsRestoreFrom { generation },
                                Box::new(cause),
                            )
                        },
                        _ => false,
                    }
                },
                IcsAction::Ignore => {
                    &&& next.0 == transactions && next.1 == flow
                    &&& !((flow is Reading || flow is Restoring) && event is Snapshot)
                    &&& !(flow is Swapping && event is Swapped)
                },
            }
        }),
{
}

/// Why a reply to a request for the recovery target gives none.
pub open spec fn unread(
    reply: Result<super::ipc::IpcResponse<WindowsIcsRecoveryConfigSnapshot>, Failure>,
) -> Option<CoreError> {
    match reply {
        Err(failure) => Some(
            CoreError::Context(
                Message::Note(Note::IcsSnapshotUnreachable),
                Box::new(CoreError::Outside(failure)),
            ),
        ),
        Ok(response) => if response.code > 0 {
            Some(CoreError::Plain(Message::Reply { text: response.message }))
        } else if response.data is None {
            Some(CoreError::Plain(Message::Note(Note::IcsSnapshotMissing)))
        } else {
            None
        },
    }
}

/// Why a reply to a swap is none that says that `target` has replaced
/// generation `expected`.
pub open spec fn unswapped(
    target: Option<super::ics::WindowsIcsRecoveryConfig>,
    expected: u64,
    reply: Result<super::ipc::IpcResponse<WindowsIcsRecoveryConfigSnapshot>, Failure>,
) -> Option<CoreError> {
    match reply {
        Err(failure) => Some(
            CoreError::Context(
                Message::Note(Note::IcsCasUnreachable),
                Box::new(CoreError::Outside(failure)),
            ),
        ),
        Ok(response) => if response.code > 0 {
            Some(
                CoreError::Plain(
                    Message::IcsCasRejected {
                        text: response.message,
                        expected,
                        current: if response.data is Some {
                            Some(response.data->0.generation)
                        } else {
                            None
                        },
                    },
                ),
            )
        } else {
            match response.data {
                None => Some(CoreError::Plain(Message::Note(Note::IcsCasNoSnapshot))),
                Some(applied) => if applied.generation != expected && target_view(applied.config)
                    == target_view(target) {
                    None
                } else {
                    Some(
                        CoreError::Plain(
                            Message::IcsCasUnexpected { expected, applied: applied.generation },
                        ),
                    )
                },
            }
        },
    }
}

/// Two recovery targets are the same exactly where they name the same public
/// and the same private connection; and no target is none other.
pub proof fn law_targets_are_told_apart_by_their_connections(
    a: super::ics::WindowsIcsRecoveryConfig,
    b: super::ics::WindowsIcsRecoveryConfig,
)
    ensures
        target_view(Some(a)) == target_view(Some(b)) <==> {
            &&& crate::text::text_view(a.public_connection.guid) == crate::text::text_view(
                b.public_connection.guid,
            )
            &&& crate::text::text_view(a.public_connection.name) == crate::text::text_view(
                b.public_connection.name,
            )
            &&& crate::text::text_view(a.private_connection.guid) == crate::text::text_view(
                b.private_connection.guid,
            )
            &&& crate::text::text_view(a.private_connection.name) == crate::text::text_view(
                b.private_connection.name,
            )
        },
        target_view(Some(a)) != target_view(None),
{
}

/// Undoing takes nothing where the original target stands, a swap for the
/// current generation where what stands is exactly what was applied, and is
/// refused in every other case.
pub proof fn law_undoing_is_decided_by_what_stands(
    original: (u64, Option<ConfigView>),
    current: (u64, Option<ConfigView>),
    applied: Option<(u64, Option<ConfigView>)>,
)
    ensures
        ({
            let decision = rollback_decision(original, current, applied);
            let back = current.1 == original.1;
            let ours = applied is Some && (applied->0).0 == current.0 && (applied->0).1
                == current.1;
            &&& back ==> decision is AlreadyRestored
            &&& !back && ours ==> decision == (WindowsIcsRollbackDecision::CompareAndSwap {
                expected_generation: current.0,
            })
            &&& !back && !ours ==> decision is Conflict
        }),
{
}

/// The recovery target is asked for exactly where recovery and TUN are both
/// on and the private adapter is named; without its name that is an error.
pub proof fn law_target_is_asked_for_by_the_settings(
    recovery: bool,
    tun: bool,
    public_name: Option<Seq<char>>,
    private_guid: Option<Seq<char>>,
    private_name: Option<Seq<char>>,
    force_rebind: bool,
)
    ensures
        ({
            let asked = super::ics_request::asked_request(
                recovery,
                tun,
                public_name,
                private_guid,
                private_name,
                force_rebind,
            );
            let named = crate::text::given_text(private_guid) is Some || crate::text::given_text(
                private_name,
            ) is Some;
            &&& !recovery || !tun <==> asked == Ok::<
                Option<super::ics_request::RequestView>,
                CoreError,
            >(None)
            &&& recovery && tun && !named ==> asked == Err::<
                Option<super::ics_request::RequestView>,
                CoreError,
            >(CoreError::Plain(Message::Note(Note::IcsAdapterMissing)))
            &&& recovery && tun && named ==> {
                &&& asked matches Ok(Some((public, private, rebind)))
                &&& public.0 is None
                &&& crate::text::given_text(public_name) is Some ==> public.1
                    == crate::text::given_text(public_name)
                &&& crate::text::given_text(public_name) is None ==> public.1 == Some(
                    "Mihomo"@,
                )
                &&& private.0 == crate::text::given_text(private_guid)
                &&& private.1 == crate::text::given_text(private_name)
                &&& rebind == force_rebind
            }
        }),
{
}

/// The target that the settings ask for goes by what they and the configuration
/// say: recovery by its own switch, TUN by the configuration.
pub proof fn law_target_is_asked_for_with_tun_only(
    verge: crate::settings::IVerge,
    runtime: crate::settings::IRuntime,
)
    ensures
        ({
            let asked = super::ics_request::configured_target(verge, runtime);
            let on = verge.enable_windows_ics_recovery == Some(true)
                && crate::tun::tun_enabled(runtime);
            &&& asked is Ok && asked->Ok_0 is None <==> !on
            &&& asked matches Ok(Some((public, private))) ==> {
                &&& private.0 == crate::text::given_text(
                    crate::text::text_view(verge.windows_ics_private_adapter_guid),
                )
                &&& private.1 == crate::text::given_text(
                    crate::text::text_view(verge.windows_ics_private_adapter_name),
                )
                &&& public.0 is None
                &&& public.1 == if crate::text::given_text(crate::tun::tun_device(runtime))
                    is Some {
                    crate::text::given_text(crate::tun::tun_device(runtime))
                } else {
                    Some("Mihomo"@)
                }
            }
        }),
{
}

/// Transactions get one id after the other, and start with nothing applied; an
/// end that names another transaction ends none.
pub proof fn law_transactions_follow_each_other(transactions: WindowsIcsTransactions, id: u64)
    ensures
        ({
            let begun = transactions.begun();
            &&& begun.active is Some
            &&& begun.active->0.id == transactions.next_id
            &&& begun.active->0.receipt is None
            &&& transactions.next_id < u64::MAX ==> begun.next_id == transactions.next_id + 1
            &&& begun.next_id != transactions.next_id
            &&& id == transactions.next_id ==> begun.ended(id).active is None
            &&& id != transactions.next_id ==> begun.ended(id) == begun
            &&& begun.ended(id).next_id == begun.next_id
        }),
{
}

/// A connection is picked out by its guid and its name, a target by its public
/// and its private connection, and a request by both and by whether they are
/// bound anew.
pub proof fn law_connections_are_seen_as_they_are(
    selector: super::ics::WindowsIcsConnectionSelector,
    config: super::ics::WindowsIcsRecoveryConfig,
    snapshot: WindowsIcsRecoveryConfigSnapshot,
    request: super::ics_request::WindowsIcsRepairRequest,
)
    ensures
        selector@ == (
            crate::text::text_view(selector.guid),
            crate::text::text_view(selector.name),
        ),
        config@ == (config.public_connection@, config.private_connection@),
        target_view(Some(config)) == Some(config@),
        target_view(None) is None,
        snapshot@ == (snapshot.generation, target_view(snapshot.config)),
        request@ == (request.public_connection@, request.private_connection@, request.force_rebind),
        super::ics_request::request_view(Ok(Some(request))) == Ok::<
            Option<super::ics_request::RequestView>,
            CoreError,
        >(Some(request@)),
        super::ics_request::request_view(Ok(None)) == Ok::<
            Option<super::ics_request::RequestView>,
            CoreError,
        >(None),
        forall|error: CoreError| #[trigger]
            super::ics_request::request_view(Err(error)) == Err::<
                Option<super::ics_request::RequestView>,
                CoreError,
            >(error),
{
}

/// A repair is asked for exactly where a target is, for the same connections;
/// they are bound anew where that is asked for.
pub proof fn law_repair_is_asked_for_like_the_target(
    verge: crate::settings::IVerge,
    runtime: crate::settings::IRuntime,
    force_rebind: bool,
)
    ensures
        ({
            let target = super::ics_request::configured_target(verge, runtime);
            let request = super::ics_request::configured_request(verge, runtime, force_rebind);
            match target {
                Ok(Some((public, private))) => request == Ok::<
                    Option<super::ics_request::RequestView>,
                    CoreError,
                >(Some((public, private, force_rebind))),
                Ok(None) => request == Ok::<Option<super::ics_request::RequestView>, CoreError>(
                    None,
                ),
                Err(error) => request == Err::<
                    Option<super::ics_request::RequestView>,
                    CoreError,
                >(error),
            }
        }),
{
}

} // verus!
