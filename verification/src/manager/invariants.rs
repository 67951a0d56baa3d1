//! What every operation of the manager keeps.

use super::by_service::{RetryTiming, ServiceStartEvent, ServiceStartFlow};
use super::config::{UpdateEvent, UpdateFlow};
use super::handoff::{RecoverEvent, RecoverFlow, WatchEvent, WatchFlow, WatchTiming};
use super::ownership::{OwnershipEvent, OwnershipFlow, OwnershipTiming};
use super::sidecar::{
    SidecarStartEvent, SidecarStartFlow, SidecarStopEvent, SidecarStopFlow,
};
use super::startup::{StartEvent, StartFlow};
use super::{following, CoreManager, SidecarChild};
use vstd::prelude::*;

verus! {

/// Whether two managers have the same hold of the configuration lock.
pub open spec fn same_lock(a: CoreManager, b: CoreManager) -> bool {
    &&& a.platform == b.platform
    &&& a.config_transaction_held == b.config_transaction_held
    &&& a.windows_ics == b.windows_ics
}

/// No step of any operation takes the configuration lock, gives it back or
/// touches the transaction on the recovery target; so a manager that is well
/// formed stays so.
pub proof fn law_steps_keep_the_lock(
    manager: CoreManager,
    start: (StartFlow, StartEvent),
    ownership: (OwnershipTiming, OwnershipFlow, OwnershipEvent),
    service: (RetryTiming, ServiceStartFlow, ServiceStartEvent),
    sidecar: (SidecarStartFlow, SidecarStartEvent),
    stop: (SidecarStopFlow, SidecarStopEvent),
    recover: (RecoverFlow, RecoverEvent),
    watch: (WatchTiming, WatchFlow, WatchEvent),
    update: (u64, UpdateFlow, UpdateEvent),
    ended: SidecarChild,
)
    ensures
        same_lock(manager, manager.start_next(start.0, start.1).0),
        same_lock(manager, manager.ownership_next(ownership.0, ownership.1, ownership.2).0),
        same_lock(manager, manager.service_start_next(service.0, service.1, service.2).0),
        same_lock(manager, manager.sidecar_start_next(sidecar.0, sidecar.1).0),
        same_lock(manager, manager.sidecar_stop_next(stop.0, stop.1).0),
        same_lock(manager, manager.recover_next(recover.0, recover.1).0),
        same_lock(manager, manager.watch_next(watch.0, watch.1, watch.2).0),
        same_lock(manager, manager.update_next(update.0, update.1, update.2).0),
        same_lock(manager, manager.finished(ended.generation, ended.pid)),
{
}

/// A manager that has the same hold of the lock as one that is well formed is
/// well formed.
pub proof fn law_same_lock_keeps_well_formed(a: CoreManager, b: CoreManager)
    requires
        a.well_formed(),
        same_lock(a, b),
    ensures
        b.well_formed(),
{
}

/// Whether every generation that is recorded, or counts as finished, was handed
/// out before the next one.
pub open spec fn generations_ordered(manager: CoreManager) -> bool {
    let next = manager.next_sidecar_generation;
    &&& manager.finished_sidecar_generation < next
    &&& manager.child_sidecar matches Some(child) ==> child.generation < next
    &&& manager.sidecar_core_owner matches Some(owner) ==> owner.generation < next
    &&& manager.sidecar_job matches Some(job) ==> job.generation < next
}

/// The generation that the start of a sidecar works for.
pub open spec fn start_generation(flow: SidecarStartFlow) -> Option<u64> {
    match flow {
        SidecarStartFlow::Writing { generation } => Some(generation),
        SidecarStartFlow::Building { generation } => Some(generation),
        SidecarStartFlow::Inheriting { generation } => Some(generation),
        SidecarStartFlow::Spawning { generation } => Some(generation),
        SidecarStartFlow::Assigning { generation, .. } => Some(generation),
        SidecarStartFlow::Attaching { generation, .. } => Some(generation),
        _ => None,
    }
}

/// Whether the start of a sidecar works for a generation that was handed out.
pub open spec fn works_for_known(manager: CoreManager, flow: SidecarStartFlow) -> bool {
    match start_generation(flow) {
        Some(generation) => generation < manager.next_sidecar_generation,
        None => true,
    }
}

/// A new sidecar gets a generation that nothing recorded has, and that does
/// not count as finished; generations stay in order, as long as they have not
/// started over.
pub proof fn law_new_generation_is_unused(manager: CoreManager)
    requires
        generations_ordered(manager),
        manager.next_sidecar_generation < u64::MAX,
    ensures
        ({
            let new = manager.next_sidecar_generation;
            let after = CoreManager { next_sidecar_generation: following(new), ..manager };
            &&& generations_ordered(after)
            &&& new < after.next_sidecar_generation
            &&& manager.finished_sidecar_generation < new
            &&& manager.child_sidecar matches Some(child) ==> child.generation != new
            &&& manager.sidecar_core_owner matches Some(owner) ==> owner.generation != new
            &&& manager.sidecar_job matches Some(job) ==> job.generation != new
        }),
{
}

/// Starting, stopping and ending sidecars keeps generations in order.
pub proof fn law_generations_stay_in_order(
    manager: CoreManager,
    sidecar: (SidecarStartFlow, SidecarStartEvent),
    stop: (SidecarStopFlow, SidecarStopEvent),
    ended: SidecarChild,
)
    requires
        generations_ordered(manager),
        works_for_known(manager, sidecar.0),
    ensures
        generations_ordered(manager.sidecar_start_next(sidecar.0, sidecar.1).0),
        works_for_known(
            manager.sidecar_start_next(sidecar.0, sidecar.1).0,
            manager.sidecar_start_next(sidecar.0, sidecar.1).1,
        ),
        generations_ordered(manager.sidecar_stop_next(stop.0, stop.1).0),
        generations_ordered(manager.finished(ended.generation, ended.pid)),
{
}

/// While a new sidecar is being started, the end of any sidecar that was
/// recorded before it does not count as the new one's: waiting for the new one
/// to give the lease back goes on.
pub proof fn law_old_end_does_not_finish_a_new_generation(manager: CoreManager, ended: SidecarChild)
    requires
        generations_ordered(manager),
    ensures
        manager.finished(ended.generation, ended.pid).finished_sidecar_generation
            < manager.next_sidecar_generation,
{
}

/// Only a sidecar that is killed after it was given the lease is waited for.
pub proof fn law_wait_after_a_kill_is_for_the_lease(
    manager: CoreManager,
    flow: SidecarStartFlow,
    event: SidecarStartEvent,
)
    ensures
        ({
            let next = manager.sidecar_start_next(flow, event);
            next.2 matches super::sidecar::SidecarStartAction::Kill { finish_after_exit } ==> {
                finish_after_exit is Some <==> {
                    &&& next.1 is Killing
                    &&& next.1->Killing_cause is ChildUncommitted
                }
            }
        }),
{
}

} // verus!
