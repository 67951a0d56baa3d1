//! The yes-or-no questions of starting, stopping and handing over the core.

use vstd::prelude::*;

verus! {

/// What becomes of the session-only TUN fallback once the sidecar was to start.
#[derive(Debug, Clone, Copy, PartialEq, Eq, Structural)]
pub enum TunFallbackResolution {
    KeepSessionRuntime,
    RollBack,
}

/// Keeps the fallback only for a sidecar that did start.
pub fn resolve_tun_fallback(sidecar_started: bool) -> (r: TunFallbackResolution)
    ensures
        r == (if sidecar_started {
            TunFallbackResolution::KeepSessionRuntime
        } else {
            TunFallbackResolution::RollBack
        }),
{
    if sidecar_started {
        TunFallbackResolution::KeepSessionRuntime
    } else {
        TunFallbackResolution::RollBack
    }
}

/// Which runtime a hand-over to the service ends with.
#[derive(Debug, Clone, Copy, PartialEq, Eq, Structural)]
pub enum HandoffRuntimeResolution {
    ApplyUserIntent,
    RestoreSessionRuntime,
}

/// The user's intent is applied once the service controls the core; until
/// then the session's runtime stands.
pub fn resolve_handoff_runtime(service_controls_core: bool) -> (r: HandoffRuntimeResolution)
    ensures
        r == (if service_controls_core {
            HandoffRuntimeResolution::ApplyUserIntent
        } else {
            HandoffRuntimeResolution::RestoreSessionRuntime
        }),
{
    if service_controls_core {
        HandoffRuntimeResolution::ApplyUserIntent
    } else {
        HandoffRuntimeResolution::RestoreSessionRuntime
    }
}

/// A watcher that ends starts over where another was asked for meanwhile and
/// there still is a sidecar to hand over.
pub fn should_rearm_handoff_watcher(
    observed_generation: u64,
    requested_generation: u64,
    sidecar_running: bool,
) -> (r: bool)
    ensures
        r == (sidecar_running && requested_generation != observed_generation),
{
    sidecar_running && requested_generation != observed_generation
}

/// A start waits for the service as long as the service is not ready.
pub fn should_wait_for_service_ownership(service_ready: bool) -> (r: bool)
    ensures
        r == !service_ready,
{
    !service_ready
}

/// The service runs the core where it answers, or is known to hold the core.
pub fn service_controls_startup(
    live_compatible_service: bool,
    service_core_owner_confirmed: bool,
) -> (r: bool)
    ensures
        r == (live_compatible_service || service_core_owner_confirmed),
{
    live_compatible_service || service_core_owner_confirmed
}

/// A sidecar without administrator rights cannot create the TUN adapter.
pub fn should_disable_tun_for_sidecar(
    tun_enabled: bool,
    service_owns_startup: bool,
    is_admin: bool,
) -> (r: bool)
    ensures
        r == (tun_enabled && !service_owns_startup && !is_admin),
{
    tun_enabled && !service_owns_startup && !is_admin
}

/// The long wait is for a start that needs the service, or one that sees signs
/// of it.
pub fn requires_extended_service_wait(
    tun_enabled: bool,
    is_admin: bool,
    ipc_present: bool,
    service_process_present: bool,
) -> (r: bool)
    ensures
        r == ((tun_enabled && !is_admin) || ipc_present || service_process_present),
{
    (tun_enabled && !is_admin) || ipc_present || service_process_present
}

/// A sidecar may start only where nothing hints at another core.
pub fn sidecar_fallback_is_safe(
    service_ipc_present: bool,
    incompatible_upgrade_pending: bool,
    mihomo_controller_present: bool,
    scm_allows_sidecar: bool,
) -> (r: bool)
    ensures
        r == (!service_ipc_present && !incompatible_upgrade_pending && !mihomo_controller_present
            && scm_allows_sidecar),
{
    !service_ipc_present && !incompatible_upgrade_pending && !mihomo_controller_present
        && scm_allows_sidecar
}

/// Whether the stored owner is the sidecar of this generation and process.
pub fn sidecar_owner_matches(stored: Option<(u64, u32)>, generation: u64, pid: u32) -> (r: bool)
    ensures
        r == (stored == Some((generation, pid))),
{
    match stored {
        Some((stored_generation, stored_pid)) => stored_generation == generation && stored_pid
            == pid,
        None => false,
    }
}

/// The service's recovery target matters where recovery is on or shall be.
pub fn windows_ics_service_state_relevant(current: Option<bool>, requested: Option<bool>) -> (r:
    bool)
    ensures
        r == (current == Some(true) || requested == Some(true)),
{
    current.unwrap_or(false) || requested.unwrap_or(false)
}

} // verus!
