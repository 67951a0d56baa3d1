//! What holds of the manager's records as a whole.

use super::{ConfigTransactionGuard, CoreManager, RunningMode, SidecarChild, SidecarCoreOwner, SidecarJob};
use crate::service::ics::{WindowsIcsRecoveryTransaction, WindowsIcsTransactions};
use vstd::prelude::*;

verus! {

/// The end of a sidecar that does not hold the lease changes nothing: a late
/// report cannot release a newer sidecar.
pub proof fn law_stale_end_changes_nothing(manager: CoreManager, generation: u64, pid: u32)
    requires
        manager.sidecar_core_owner != Some(SidecarCoreOwner { generation, pid }),
    ensures
        manager.finished(generation, pid) == manager,
{
}

/// The end of the sidecar that holds the lease leaves nothing of it behind.
pub proof fn law_end_of_the_owner_leaves_nothing(manager: CoreManager, generation: u64, pid: u32)
    requires
        manager.sidecar_core_owner == Some(SidecarCoreOwner { generation, pid }),
    ensures
        ({
            let after = manager.finished(generation, pid);
            &&& after.sidecar_core_owner is None
            &&& after.child_sidecar != Some(SidecarChild { generation, pid })
            &&& after.sidecar_job != Some(SidecarJob { generation })
            &&& !(after.running_mode is Sidecar)
            &&& !after.windows_sidecar_tun_fallback_active
            &&& after.finished_sidecar_generation >= generation
        }),
{
}

/// A second report of the same end changes nothing more.
pub proof fn law_end_is_taken_in_once(manager: CoreManager, generation: u64, pid: u32)
    ensures
        manager.finished(generation, pid).finished(generation, pid) == manager.finished(
            generation,
            pid,
        ),
{
}

/// The generation that counts as finished never goes back.
pub proof fn law_finished_generation_never_goes_back(
    manager: CoreManager,
    generation: u64,
    pid: u32,
)
    ensures
        manager.finished(generation, pid).finished_sidecar_generation
            >= manager.finished_sidecar_generation,
{
}

/// A sidecar whose end was taken in is not recorded as running.
pub proof fn law_finished_sidecar_is_not_recorded(manager: CoreManager, generation: u64, pid: u32)
    requires
        manager.sidecar_core_owner == Some(SidecarCoreOwner { generation, pid }),
    ensures
        !manager.finished(generation, pid).sidecar_recorded(),
{
}

/// The end of a sidecar leaves a core that the service runs alone.
pub proof fn law_end_of_a_sidecar_spares_the_service(
    manager: CoreManager,
    generation: u64,
    pid: u32,
)
    requires
        manager.running_mode is Service,
    ensures
        manager.finished(generation, pid).running_mode is Service,
{
}

/// Taking the lock and giving it back leaves it free, with no transaction
/// under way; nothing but the count of transactions is different.
pub proof fn law_lock_is_free_after_its_transaction(manager: CoreManager)
    requires
        manager.well_formed(),
        !manager.config_transaction_held,
    ensures
        ({
            let after = manager.lock_taken().lock_released(manager.lock_guard());
            &&& after.well_formed()
            &&& !after.config_transaction_held
            &&& after == CoreManager {
                windows_ics: after.windows_ics,
                ..manager
            }
            &&& after.windows_ics.active is None
            &&& after.windows_ics == WindowsIcsTransactions {
                next_id: after.windows_ics.next_id,
                ..manager.windows_ics
            }
        }),
{
}

/// A recovery target snapshotted under one hold of the lock cannot be
/// returned to under a later one, as long as ids have not started over.
pub proof fn law_snapshot_does_not_outlive_the_lock(
    manager: CoreManager,
    token: WindowsIcsRecoveryTransaction,
)
    requires
        manager.well_formed(),
        !manager.config_transaction_held,
        token.scope_id < manager.windows_ics.next_id,
    ensures
        manager.lock_taken().windows_ics.restore_start(token).0 is Finished,
        manager.lock_taken().windows_ics.restore_start(token).1 is Finish,
        manager.lock_taken().windows_ics.restore_start(token).1->Finish_0 is Err,
{
}

/// Recording who runs the core, or whether TUN is turned off, records just
/// that.
pub proof fn law_records_are_kept_apart(manager: CoreManager, mode: RunningMode, active: bool)
    ensures
        manager.in_mode(mode) == (CoreManager { running_mode: mode, ..manager }),
        manager.in_mode(mode).running_mode == mode,
        manager.with_tun_fallback(active) == (CoreManager {
            windows_sidecar_tun_fallback_active: active,
            ..manager
        }),
        manager.with_tun_fallback(active).windows_sidecar_tun_fallback_active == active,
{
}

/// A sidecar that is recorded as running has a child, and the lease and the job
/// object are held for that child; a record of any other sidecar does not do.
pub proof fn law_recorded_sidecar_is_one(manager: CoreManager)
    ensures
        manager.sidecar_recorded() <==> {
            &&& manager.running_mode is Sidecar
            &&& manager.child_sidecar is Some
            &&& manager.sidecar_core_owner is Some
            &&& manager.sidecar_job is Some
            &&& manager.sidecar_core_owner->0.generation == manager.child_sidecar->0.generation
            &&& manager.sidecar_core_owner->0.pid == manager.child_sidecar->0.pid
            &&& manager.sidecar_job->0.generation == manager.child_sidecar->0.generation
        },
{
}

/// The end of the sidecar that holds the lease takes away what is recorded of
/// it, and nothing that is recorded of another: the generation counts as
/// finished, and the rest of the manager stays.
pub proof fn law_end_takes_away_its_own_records(manager: CoreManager, generation: u64, pid: u32)
    requires
        manager.sidecar_core_owner == Some(SidecarCoreOwner { generation, pid }),
    ensures
        ({
            let after = manager.finished(generation, pid);
            &&& after.sidecar_core_owner is None
            &&& after.child_sidecar == if manager.child_sidecar == Some(
                SidecarChild { generation, pid },
            ) {
                None
            } else {
                manager.child_sidecar
            }
            &&& after.sidecar_job == if manager.sidecar_job == Some(SidecarJob { generation }) {
                None
            } else {
                manager.sidecar_job
            }
            &&& manager.running_mode is Sidecar ==> after.running_mode is NotRunning
            &&& !(manager.running_mode is Sidecar) ==> after.running_mode == manager.running_mode
            &&& after.finished_sidecar_generation >= generation
            &&& after.finished_sidecar_generation == generation
                || after.finished_sidecar_generation == manager.finished_sidecar_generation
            &&& after == CoreManager {
                sidecar_core_owner: None,
                child_sidecar: after.child_sidecar,
                sidecar_job: after.sidecar_job,
                running_mode: after.running_mode,
                windows_sidecar_tun_fallback_active: false,
                finished_sidecar_generation: after.finished_sidecar_generation,
                ..manager
            }
        }),
{
}

/// A job object is forgotten by its generation only.
pub proof fn law_job_is_forgotten_by_its_generation(
    manager: CoreManager,
    kept: u64,
    generation: u64,
)
    requires
        manager.sidecar_job == Some(SidecarJob { generation: kept }),
    ensures
        kept == generation ==> manager.without_job(generation) == (CoreManager {
            sidecar_job: None,
            ..manager
        }),
        kept != generation ==> manager.without_job(generation) == manager,
{
}

/// Numbers are handed out one after the other, and a new one is never the one
/// before it.
pub proof fn law_numbers_follow_each_other(n: u64)
    ensures
        n < u64::MAX ==> super::following(n) == n + 1,
        super::following(n) != n,
{
}

/// The configuration lock, once taken, is held; on Windows it comes with a
/// transaction of its own on the recovery target, elsewhere with none.
pub proof fn law_lock_comes_with_a_transaction(manager: CoreManager)
    requires
        manager.well_formed(),
        !manager.config_transaction_held,
    ensures
        ({
            let held = manager.lock_taken();
            let guard = manager.lock_guard();
            &&& held.config_transaction_held
            &&& held == CoreManager {
                config_transaction_held: true,
                windows_ics: held.windows_ics,
                ..manager
            }
            &&& held.lock_held_by(guard)
            &&& manager.platform is Windows ==> {
                &&& guard.windows_ics_scope == Some(manager.windows_ics.next_id)
                &&& held.windows_ics.active is Some
                &&& held.windows_ics.active->0.id == manager.windows_ics.next_id
                &&& held.windows_ics.active->0.receipt is None
            }
            &&& !(manager.platform is Windows) ==> {
                &&& guard.windows_ics_scope is None
                &&& held.windows_ics == manager.windows_ics
                &&& held.windows_ics.active is None
            }
        }),
{
}

/// The lock is held by a guard only while it is held at all: on Windows by the
/// guard of the transaction that is under way, elsewhere by one that has none.
pub proof fn law_lock_is_held_by_its_guard(manager: CoreManager, guard: ConfigTransactionGuard)
    ensures
        manager.lock_held_by(guard) ==> manager.config_transaction_held,
        manager.config_transaction_held && guard.windows_ics_scope is None
            ==> (manager.lock_held_by(guard) <==> manager.windows_ics.active is None),
        manager.config_transaction_held && guard.windows_ics_scope is Some
            ==> (manager.lock_held_by(guard) <==> manager.windows_ics.active is Some
            && manager.windows_ics.active->0.id == guard.windows_ics_scope->0),
{
}

/// A manager is well formed where a transaction on the recovery target is under
/// way on Windows while the lock is held, and at no other time.
pub proof fn law_transaction_lasts_as_long_as_the_lock(manager: CoreManager)
    requires
        manager.well_formed(),
    ensures
        manager.windows_ics.active is Some ==> manager.platform is Windows
            && manager.config_transaction_held,
        manager.platform is Windows && manager.config_transaction_held
            ==> manager.windows_ics.active is Some,
{
}

/// Each mode is shown under its own name.
pub proof fn law_modes_are_shown_by_name()
    ensures
        RunningMode::Service.name_wording() == "Service"@,
        RunningMode::Sidecar.name_wording() == "Sidecar"@,
        RunningMode::NotRunning.name_wording() == "NotRunning"@,
{
}

} // verus!
