use clash_verge::flags::{non_runtime_side_effect_flags, UpdateFlag, UpdateFlags};
use clash_verge::manager::decisions::{
    requires_extended_service_wait, resolve_handoff_runtime, resolve_tun_fallback,
    service_controls_startup, should_disable_tun_for_sidecar, should_rearm_handoff_watcher,
    should_wait_for_service_ownership, sidecar_fallback_is_safe, sidecar_owner_matches,
    windows_ics_service_state_relevant, HandoffRuntimeResolution, TunFallbackResolution,
};
use clash_verge::service::scm::windows_ics_service_sync_required;

#[test]
fn every_unready_windows_start_performs_an_ownership_handshake() {
    assert!(should_wait_for_service_ownership(false));
    assert!(!should_wait_for_service_ownership(true));
}

#[test]
fn only_non_admin_tun_requires_sidecar_fallback_to_disable_tun() {
    assert!(should_disable_tun_for_sidecar(true, false, false));
    assert!(!should_disable_tun_for_sidecar(true, false, true));
    assert!(!should_disable_tun_for_sidecar(true, true, false));
    assert!(!should_disable_tun_for_sidecar(false, false, false));
}

#[test]
fn service_process_presence_or_ipc_only_extends_the_wait() {
    assert!(requires_extended_service_wait(false, true, false, true));
    assert!(requires_extended_service_wait(false, false, true, false));
    assert!(requires_extended_service_wait(true, false, false, false));
    assert!(!requires_extended_service_wait(false, true, false, false));
}

#[test]
fn sidecar_fallback_requires_quiet_scm_ipc_upgrade_and_core_state() {
    assert!(sidecar_fallback_is_safe(false, false, false, true));
    assert!(!sidecar_fallback_is_safe(true, false, false, true));
    assert!(!sidecar_fallback_is_safe(false, true, false, true));
    assert!(!sidecar_fallback_is_safe(false, false, true, true));
    assert!(!sidecar_fallback_is_safe(false, false, false, false));
}

#[test]
fn only_live_compatible_service_or_its_confirmed_core_lease_selects_service() {
    assert!(service_controls_startup(false, true));
    assert!(service_controls_startup(true, false));
    assert!(!service_controls_startup(false, false));
}

#[test]
fn tun_fallback_keeps_only_the_successful_session_runtime() {
    assert_eq!(resolve_tun_fallback(false), TunFallbackResolution::RollBack);
    assert_eq!(resolve_tun_fallback(true), TunFallbackResolution::KeepSessionRuntime);
}

#[test]
fn service_handoff_commits_user_intent_or_restores_session_runtime() {
    assert_eq!(resolve_handoff_runtime(true), HandoffRuntimeResolution::ApplyUserIntent);
    assert_eq!(
        resolve_handoff_runtime(false),
        HandoffRuntimeResolution::RestoreSessionRuntime
    );
}

#[test]
fn handoff_watcher_rearms_only_for_a_missed_sidecar_request() {
    assert!(should_rearm_handoff_watcher(7, 8, true));
    assert!(!should_rearm_handoff_watcher(7, 7, true));
    assert!(!should_rearm_handoff_watcher(7, 8, false));
}

#[test]
fn stale_sidecar_termination_cannot_release_new_owner() {
    assert!(sidecar_owner_matches(Some((7, 42)), 7, 42));
    assert!(!sidecar_owner_matches(Some((8, 42)), 7, 42));
    assert!(!sidecar_owner_matches(Some((7, 43)), 7, 42));
    assert!(!sidecar_owner_matches(None, 7, 42));
}

#[test]
fn skips_service_sync_only_when_ics_recovery_stays_disabled() {
    assert!(!windows_ics_service_state_relevant(Some(false), Some(false)));
    assert!(!windows_ics_service_state_relevant(Some(false), None));
    assert!(!windows_ics_service_state_relevant(None, Some(false)));
    assert!(!windows_ics_service_state_relevant(None, None));

    assert!(windows_ics_service_state_relevant(Some(false), Some(true)));
    assert!(windows_ics_service_state_relevant(Some(true), Some(false)));
    assert!(windows_ics_service_state_relevant(Some(true), Some(true)));
    assert!(windows_ics_service_state_relevant(Some(true), None));
}

#[test]
fn sidecar_with_existing_ics_requires_service_sync_and_rollback() {
    assert!(windows_ics_service_sync_required(false, Some(true), None));
    assert!(windows_ics_service_sync_required(false, Some(true), Some(false)));
    assert!(!windows_ics_service_sync_required(false, Some(false), None));
    assert!(windows_ics_service_sync_required(true, Some(false), None));
}

#[test]
fn verge_rollback_replays_every_non_runtime_side_effect_only() {
    let all = UpdateFlags::all();
    let rollback = non_runtime_side_effect_flags(all);

    let runtime = UpdateFlags::of(UpdateFlag::RestartCore).union(UpdateFlags::of(UpdateFlag::ClashConfig));
    let logs = UpdateFlags::of(UpdateFlag::LogLevel).union(UpdateFlags::of(UpdateFlag::LogFile));
    assert!(!rollback.intersects(runtime));
    assert!(rollback.contains(UpdateFlags::of(UpdateFlag::Launch)));
    assert!(rollback.contains(UpdateFlags::of(UpdateFlag::SysProxy)));
    assert!(rollback.contains(UpdateFlags::of(UpdateFlag::Language)));
    assert!(rollback.contains(UpdateFlags::of(UpdateFlag::Hotkey)));
    assert!(rollback.contains(UpdateFlags::group_sys_tray()));
    assert!(rollback.contains(UpdateFlags::of(UpdateFlag::SystrayClickBehavior)));
    assert!(rollback.contains(UpdateFlags::of(UpdateFlag::LightWeight)));
    assert!(rollback.contains(logs));
}
