use clash_verge::clock::after;
use clash_verge::effects::{
    process_terminated_flags, restore_non_runtime_side_effects, rollback_patch,
    undo_side_effect, Effect,
};
use clash_verge::error::{CoreError, Failure};
use clash_verge::feat::config::{
    change_core_message, patch_clash, patch_verge, patch_windows_tun_and_ics,
    verge_change_schedules_ics,
};
use clash_verge::flags::{determine_update_flags, UpdateFlag, UpdateFlags};
use clash_verge::manager::config::{
    apply_config, apply_pending_runtime_config, edit_step, perform_config_update, perform_step,
    restore_runtime_in_transaction, run_on_step, update_runtime_config, ApplyAction, ApplyEvent,
    ApplyFlow, DefaultConfigAction, DraftFate, EditAction, EditEvent, PerformAction, PerformEvent,
    RunOnAction, RunOnEvent, RuntimeDrafts, UpdateAction, UpdateEvent, UpdateFlow,
};
use clash_verge::manager::{CoreManager, RunningMode};
use clash_verge::platform::Platform;
use clash_verge::rollback::{add_failures, RollbackFailures, RollbackPart};
use clash_verge::service::ics::{WindowsIcsRecoveryConfigSnapshot, WindowsIcsRecoveryTransaction};
use clash_verge::service::ipc::IpcResponse;
use clash_verge::settings::{IRuntime, IVerge};
use clash_verge::text::{
    as_slice, decimal_text, join, non_blank, replace_char, same_optional_text, signed_decimal_text,
    to_text,
};
use clash_verge::transaction::{
    draft_handling, ChangeKind, DraftHandling, DraftStore, Plan, TransactionAction,
    TransactionFlow,
};
use clash_verge::tun::{
    effective_runtime, runtime_windows_tun_config, tun_patch, windows_runtime_tun,
    windows_tun_changed,
};
use clash_verge::validation::{
    validation_outcome_to_result, ValidationOutcome, ValidationSkipReason,
};
use serde_yaml_ng::{Mapping, Value};

fn failure(text: &str) -> Failure {
    Failure { summary: text.to_owned(), detail: format!("{text}: cause") }
}

fn outside(text: &str) -> CoreError {
    CoreError::Outside(failure(text))
}

fn runtime_with_tun(tun: Mapping) -> IRuntime {
    let mut config = Mapping::new();
    config.insert(Value::from("tun"), Value::Mapping(tun));
    IRuntime { config: Some(config) }
}

fn mapping(key: &str, value: Value) -> Mapping {
    let mut mapping = Mapping::new();
    mapping.insert(Value::from(key), value);
    mapping
}

fn manager_in(platform: Platform, mode: RunningMode) -> CoreManager {
    let mut manager = CoreManager::new(platform);
    manager.set_running_mode(mode);
    manager
}

fn recovery_token() -> WindowsIcsRecoveryTransaction {
    let mut manager = CoreManager::new(Platform::Windows);
    let _guard = manager.begin_config_transaction();
    let snapshot = WindowsIcsRecoveryConfigSnapshot { generation: 7, config: None };
    let reply = IpcResponse { code: 0, message: String::new(), data: Some(snapshot) };
    manager.windows_ics.snapshot_windows_ics_recovery(Ok(reply)).unwrap()
}

#[test]
fn detects_changes_to_any_effective_tun_field() {
    let mut before = Mapping::new();
    before.insert(Value::from("enable"), Value::Bool(true));
    before.insert(Value::from("device"), Value::from("Mihomo"));
    before.insert(Value::from("mtu"), Value::from(1500));

    let mut after = before.clone();
    after.insert(Value::from("mtu"), Value::from(1400));

    assert_ne!(
        runtime_windows_tun_config(&runtime_with_tun(before.clone())),
        runtime_windows_tun_config(&runtime_with_tun(after.clone()))
    );
    assert!(windows_tun_changed(&runtime_with_tun(before), &runtime_with_tun(after)));
}

#[test]
fn ignores_changes_outside_the_tun_mapping() {
    let mut tun = Mapping::new();
    tun.insert(Value::from("enable"), Value::Bool(true));
    let before = runtime_with_tun(tun.clone());
    let mut after = runtime_with_tun(tun);
    if let Some(config) = after.config.as_mut() {
        config.insert(Value::from("mode"), Value::from("global"));
    }

    assert_eq!(runtime_windows_tun_config(&before), runtime_windows_tun_config(&after));
    assert!(!windows_tun_changed(&before, &after));
}

#[test]
fn tun_section_is_read_and_written() {
    let none = IRuntime { config: None };
    let odd = IRuntime { config: Some(mapping("tun", Value::from("on"))) };
    assert_eq!(windows_runtime_tun(&none), (false, None));
    assert_eq!(windows_runtime_tun(&odd), (false, None));
    assert!(!windows_tun_changed(&none, &odd));
    assert!(windows_tun_changed(&none, &runtime_with_tun(Mapping::new())));

    let mut tun = mapping("enable", Value::from(true));
    tun.insert(Value::from("device"), Value::from("Tun0"));
    assert_eq!(windows_runtime_tun(&runtime_with_tun(tun.clone())), (true, Some("Tun0")));
    assert_eq!(
        windows_runtime_tun(&runtime_with_tun(mapping("enable", Value::from("yes")))),
        (false, None)
    );

    assert_eq!(tun_patch(&tun), mapping("tun", Value::Mapping(tun.clone())));
    let some = runtime_with_tun(tun);
    assert!(effective_runtime(&some, &none).config.is_some());
    assert_eq!(effective_runtime(&none, &some).config, some.config);
}

#[test]
fn texts_are_put_together() {
    assert_eq!(non_blank(Some(" \u{2003}a b\u{85}")), Some("a b"));
    assert_eq!(non_blank(Some(" \t\n")), None);
    assert_eq!(non_blank(None), None);
    assert_eq!(to_text(as_slice(&Some("x".to_owned()))), Some("x".to_owned()));
    assert!(same_optional_text(&None, &None));
    assert!(!same_optional_text(&None, &Some(String::new())));
    assert_eq!(decimal_text(0), "0");
    assert_eq!(decimal_text(u64::MAX), "18446744073709551615");
    assert_eq!(signed_decimal_text(-40), "-40");
    assert_eq!(join(&vec!["a".to_owned(), "b".to_owned()], "; "), "a; b");
    assert_eq!(join(&vec![], "; "), "");
    assert_eq!(replace_char("a-b-", '-', "--"), "a--b--");
    assert_eq!(after(5, 6), 11);
    assert_eq!(after(5, u64::MAX), u64::MAX);
}

#[test]
fn flags_are_a_set() {
    let mut flags = UpdateFlags::empty();
    assert!(flags.is_empty());
    flags.insert(UpdateFlag::Launch);
    flags.insert(UpdateFlag::Launch);
    assert_eq!(flags, UpdateFlags::of(UpdateFlag::Launch));
    let both = flags.union(UpdateFlags::of(UpdateFlag::Hotkey));
    assert!(both.contains(flags) && !flags.contains(both));
    assert!(both.intersects(flags));
    assert_eq!(both.difference(flags), UpdateFlags::of(UpdateFlag::Hotkey));
    assert!(!both.intersects(UpdateFlags::group_sys_tray()));
    assert!(UpdateFlags::all().contains(UpdateFlags::group_sys_tray()));
    assert_eq!(UpdateFlag::SystrayClickBehavior.name(), "UpdateFlags(SYSTRAY_CLICK_BEHAVIOR)");
}

#[test]
fn patches_ask_for_flags() {
    let blank = IVerge::default();
    assert!(determine_update_flags(&blank, Platform::Linux).is_empty());

    let mut patch = IVerge::default();
    patch.enable_tun_mode = Some(true);
    let tray = UpdateFlags::group_sys_tray().union(UpdateFlags::of(UpdateFlag::ClashConfig));
    assert_eq!(determine_update_flags(&patch, Platform::Windows), tray);
    assert_eq!(
        determine_update_flags(&patch, Platform::Linux),
        tray.union(UpdateFlags::of(UpdateFlag::RestartCore))
    );
    patch.enable_tun_mode = Some(false);
    assert_eq!(determine_update_flags(&patch, Platform::Linux), tray);

    let mut patch = IVerge::default();
    patch.verge_redir_port = Some(1);
    assert!(determine_update_flags(&patch, Platform::Windows).is_empty());
    assert_eq!(
        determine_update_flags(&patch, Platform::MacOs),
        UpdateFlags::of(UpdateFlag::RestartCore)
    );
    let mut patch = IVerge::default();
    patch.verge_tproxy_enabled = Some(false);
    assert!(determine_update_flags(&patch, Platform::MacOs).is_empty());
    assert_eq!(
        determine_update_flags(&patch, Platform::Linux),
        UpdateFlags::of(UpdateFlag::RestartCore)
    );
    let mut patch = IVerge::default();
    patch.tray_icon = Some("x".to_owned());
    assert!(determine_update_flags(&patch, Platform::Linux).is_empty());
    assert_eq!(
        determine_update_flags(&patch, Platform::MacOs),
        UpdateFlags::of(UpdateFlag::SystrayIcon)
    );

    let mut patch = IVerge::default();
    patch.language = Some("en".to_owned());
    patch.hotkeys = Some(vec![]);
    patch.app_log_max_count = Some(3);
    let flags = determine_update_flags(&patch, Platform::Linux);
    for flag in [
        UpdateFlag::Language,
        UpdateFlag::SystrayMenu,
        UpdateFlag::SystrayTooltip,
        UpdateFlag::Hotkey,
        UpdateFlag::LogFile,
    ] {
        assert!(flags.contains_flag(flag));
    }
    assert!(!flags.contains_flag(UpdateFlag::SystrayIcon));
    assert!(!flags.contains_flag(UpdateFlag::LogLevel));
}

#[test]
fn flags_are_seen_to_in_order() {
    let mut patch = IVerge::default();
    patch.app_log_max_count = Some(3);
    patch.enable_tray_speed = Some(true);
    let effects = process_terminated_flags(UpdateFlags::all(), &patch, Platform::MacOs);
    assert_eq!(
        effects,
        vec![
            Effect::Generate,
            Effect::RestartCore,
            Effect::UpdateConfig,
            Effect::RefreshClash,
            Effect::RefreshVerge,
            Effect::UpdateLaunch,
            Effect::UpdateSysproxy,
            Effect::RefreshGuard,
            Effect::UpdateTrayMenu,
            Effect::UpdateTrayIcon,
            Effect::UpdateTraySpeed(true),
            Effect::UpdateTrayTooltip,
            Effect::UpdateTrayClickBehavior,
            Effect::SetLightWeight(false),
            Effect::UpdateLogLevel,
            Effect::UpdateLogFiles { max_size: 128, max_count: 3 },
        ]
    );
    patch.language = Some("en".to_owned());
    patch.hotkeys = Some(vec![]);
    let flags = UpdateFlags::of(UpdateFlag::Hotkey).union(UpdateFlags::of(UpdateFlag::Language));
    assert_eq!(
        process_terminated_flags(flags, &patch, Platform::Linux),
        vec![Effect::SetLocale, Effect::UpdateHotkeys]
    );

    let undone = restore_non_runtime_side_effects(UpdateFlags::all());
    assert_eq!(undone.len(), 12);
    assert_eq!(undone[0], UpdateFlag::VergeConfig);
    assert_eq!(undone[11], UpdateFlag::LogFile);
}

#[test]
fn settings_of_before_undo_a_patch() {
    let all = UpdateFlags::all();
    let undo = rollback_patch(IVerge::default(), all, Platform::MacOs, "de");
    assert_eq!(undo.hotkeys, Some(vec![]));
    assert_eq!(undo.language.as_deref(), Some("de"));
    assert_eq!(undo.enable_tray_speed, Some(false));
    let undo = rollback_patch(IVerge::default(), UpdateFlags::empty(), Platform::MacOs, "de");
    assert_eq!(undo.hotkeys, None);
    assert_eq!(undo.language, None);
    assert_eq!(undo.enable_tray_speed, None);
    let mut before = IVerge::default();
    before.language = Some("fr".to_owned());
    before.clash_core = Some("core".to_owned());
    let undo = rollback_patch(before, all, Platform::Linux, "de");
    assert_eq!(undo.language.as_deref(), Some("fr"));
    assert_eq!(undo.clash_core.as_deref(), Some("core"));
    assert_eq!(undo.enable_tray_speed, None);
}

#[test]
fn one_side_effect_is_undone_with_the_settings_of_before() {
    let all = UpdateFlags::all();
    let (patch, effects) =
        undo_side_effect(UpdateFlag::Language, IVerge::default(), all, Platform::Linux, "de");
    assert_eq!(patch.language.as_deref(), Some("de"));
    assert_eq!(patch.hotkeys, Some(vec![]));
    assert_eq!(
        effects,
        process_terminated_flags(UpdateFlags::of(UpdateFlag::Language), &patch, Platform::Linux)
    );
    assert!(effects.contains(&Effect::SetLocale));
    assert!(!effects.contains(&Effect::UpdateHotkeys));

    let none = UpdateFlags::empty();
    let (patch, effects) =
        undo_side_effect(UpdateFlag::Launch, IVerge::default(), none, Platform::Linux, "de");
    assert_eq!(patch.language, None);
    assert_eq!(effects, vec![Effect::UpdateLaunch]);
}

#[test]
fn drafts_are_handled_by_the_kind_of_change() {
    assert_eq!(
        draft_handling(ChangeKind::Clash),
        DraftHandling {
            restore_clash: true,
            restore_verge: false,
            restore_runtime_draft: false,
            commit: Some(DraftStore::Clash),
        }
    );
    assert_eq!(
        draft_handling(ChangeKind::Verge),
        DraftHandling {
            restore_clash: false,
            restore_verge: true,
            restore_runtime_draft: false,
            commit: Some(DraftStore::Verge),
        }
    );
    assert_eq!(
        draft_handling(ChangeKind::TunAndIcs),
        DraftHandling {
            restore_clash: true,
            restore_verge: true,
            restore_runtime_draft: true,
            commit: None,
        }
    );
}

#[test]
fn core_settings_are_patched() {
    let manager = manager_in(Platform::Windows, RunningMode::Sidecar);
    let plan = patch_clash(&manager, &mapping("secret", Value::from("s")), Some(false));
    assert!(!plan.snapshot);
    assert_eq!(
        plan.steps,
        vec![Effect::Generate, Effect::RestartCore, Effect::RefreshClash, Effect::SaveClash]
    );
    assert_eq!(plan.undo, vec![RollbackPart::Runtime, RollbackPart::ClashFile]);

    let plan = patch_clash(&manager, &mapping("allow-lan", Value::from(true)), Some(true));
    assert!(plan.snapshot);
    assert_eq!(
        plan.steps,
        vec![Effect::UpdateConfig, Effect::RefreshClash, Effect::SaveClash]
    );
    assert_eq!(
        plan.undo,
        vec![RollbackPart::Runtime, RollbackPart::Service, RollbackPart::ClashFile]
    );

    let manager = manager_in(Platform::Linux, RunningMode::Service);
    let plan = patch_clash(&manager, &mapping("mode", Value::from("rule")), Some(true));
    assert!(!plan.snapshot);
    assert_eq!(
        plan.steps,
        vec![
            Effect::UpdateTrayMenuAndIcon,
            Effect::PatchRuntime,
            Effect::UpdateConfig,
            Effect::RefreshClash,
            Effect::SaveClash,
        ]
    );
    let plan = patch_clash(&manager, &Mapping::new(), None);
    assert_eq!(plan.steps[0], Effect::PatchRuntime);
}

#[test]
fn settings_are_patched() {
    let manager = manager_in(Platform::Windows, RunningMode::Service);
    let mut patch = IVerge::default();
    patch.enable_windows_ics_recovery = Some(true);
    let plan = patch_verge(&manager, &patch, false, None);
    assert!(plan.snapshot);
    assert_eq!(plan.steps, vec![Effect::ConfigureIcs, Effect::SaveVerge]);
    assert_eq!(plan.undo, vec![RollbackPart::Service, RollbackPart::VergeFile]);
    assert!(verge_change_schedules_ics(Platform::Windows, &patch));
    assert!(!verge_change_schedules_ics(Platform::Linux, &patch));

    let mut patch = IVerge::default();
    patch.enable_auto_launch = Some(true);
    let plan = patch_verge(&manager, &patch, true, Some(true));
    assert!(!plan.snapshot);
    assert_eq!(plan.steps, vec![Effect::UpdateLaunch]);
    assert_eq!(plan.undo, vec![RollbackPart::SideEffect(UpdateFlag::Launch)]);
    assert!(!verge_change_schedules_ics(Platform::Windows, &patch));

    let mut patch = IVerge::default();
    patch.verge_mixed_port = Some(7897);
    let plan = patch_verge(&manager, &patch, false, None);
    assert!(plan.snapshot);
    assert_eq!(
        plan.undo,
        vec![RollbackPart::Runtime, RollbackPart::Service, RollbackPart::VergeFile]
    );
}

#[test]
fn tun_and_recovery_are_patched_together() {
    let mut ics = IVerge::default();
    ics.enable_windows_ics_recovery = Some(true);
    ics.windows_ics_private_adapter_guid = Some(" ".to_owned());
    ics.language = Some("en".to_owned());
    assert_eq!(
        patch_windows_tun_and_ics(&ics).unwrap_err().summary(),
        "Windows ICS private adapter is not configured"
    );
    ics.windows_ics_private_adapter_name = Some(" vEthernet ".to_owned());
    let patch = patch_windows_tun_and_ics(&ics).unwrap();
    assert_eq!(patch.enable_windows_ics_recovery, Some(true));
    assert_eq!(patch.windows_ics_private_adapter_guid.as_deref(), Some(" "));
    assert_eq!(patch.windows_ics_private_adapter_name.as_deref(), Some(" vEthernet "));
    assert_eq!(patch.language, None);

    let manager = manager_in(Platform::Windows, RunningMode::Service);
    let plan = manager.patch_windows_tun_and_ics(None, Some(false));
    assert!(!plan.snapshot);
    assert_eq!(plan.steps.len(), 5);
    let plan = manager.patch_windows_tun_and_ics(Some(true), None);
    assert!(plan.snapshot);
    assert_eq!(plan.steps[2], Effect::ConfigureIcs);
    assert_eq!(plan.undo.len(), 5);
    assert_eq!(plan.undo_early, vec![RollbackPart::ClashFile, RollbackPart::VergeFile]);
}

/// Runs a plan; step `failing` fails, and so does every part in `unundone`.
fn run(plan: &Plan, failing: usize, unundone: &[RollbackPart]) -> (Vec<String>, TransactionAction) {
    let mut log = Vec::new();
    let (mut flow, mut action) = plan.begin();
    let mut step: usize = 0;
    loop {
        let done = match &action {
            TransactionAction::Do(_) => {
                step = step + 1;
                if step == failing + 1 { Err(outside("step")) } else { Ok(()) }
            }
            TransactionAction::Undo(part) if unundone.contains(part) => Err(outside("undo")),
            TransactionAction::Commit
            | TransactionAction::Refuse(_)
            | TransactionAction::RolledBack { .. }
            | TransactionAction::Ignore => {
                assert!(matches!(flow, TransactionFlow::Finished));
                return (log, action);
            }
            _ => Ok(()),
        };
        log.push(format!("{action:?}"));
        let next = plan.transaction_step(flow, done);
        flow = next.0;
        action = next.1;
    }
}

#[test]
fn change_is_committed_or_undone() {
    let manager = manager_in(Platform::Windows, RunningMode::Service);
    let plan = manager.patch_windows_tun_and_ics(Some(true), None);
    let (log, end) = run(&plan, 99, &[]);
    assert!(matches!(end, TransactionAction::Commit));
    assert_eq!(log[0], "SnapshotIcs");
    assert_eq!(log[1], "EditDrafts");
    assert_eq!(log.len(), 8);

    let (log, end) = run(&plan, 0, &[]);
    assert_eq!(
        log,
        vec![
            "SnapshotIcs",
            "EditDrafts",
            "Do(Generate)",
            "RevertDrafts",
            "Undo(ClashFile)",
            "Undo(VergeFile)",
        ]
    );
    match end {
        TransactionAction::RolledBack { error, failures } => {
            assert_eq!(add_failures(error, failures).detail(), "step: cause")
        }
        other => panic!("{other:?}"),
    }

    let (log, end) = run(&plan, 1, &[RollbackPart::RuntimeFile, RollbackPart::Service]);
    assert_eq!(
        log[5..],
        ["Undo(RuntimeFile)", "Undo(Service)", "Undo(ClashFile)", "Undo(VergeFile)"]
    );
    match end {
        TransactionAction::RolledBack { error, failures } => {
            let message = change_core_message(&error, &failures);
            assert_eq!(
                message,
                "step: cause; rollback errors: runtime rollback file failed: undo: cause; \
                 service rollback failed: undo: cause"
            );
            let error = add_failures(error, failures);
            assert_eq!(
                error.summary(),
                "rollback errors: runtime rollback file failed: undo: cause; \
                 service rollback failed: undo: cause"
            );
        }
        other => panic!("{other:?}"),
    }

    let (log, end) = run(&plan, 1, &[RollbackPart::Runtime, RollbackPart::VergeFile]);
    assert_eq!(
        log[5..],
        [
            "Undo(RuntimeFile)",
            "Undo(Runtime)",
            "Undo(Service)",
            "Undo(ClashFile)",
            "Undo(VergeFile)",
        ]
    );
    match end {
        TransactionAction::RolledBack { failures, .. } => assert_eq!(
            failures.text(),
            "runtime rollback failed: undo: cause; verge file rollback failed: undo: cause"
        ),
        other => panic!("{other:?}"),
    }

    let (flow, _) = plan.begin();
    assert!(matches!(
        plan.transaction_step(flow, Err(outside("x"))).1,
        TransactionAction::Refuse(_)
    ));
}

#[test]
fn core_is_changed_to_a_known_one_only() {
    let manager = CoreManager::new(Platform::Linux);
    let cores = vec!["verge-mihomo".to_owned(), "verge-mihomo-alpha".to_owned()];
    let plan = manager.change_core("verge-mihomo-alpha", &cores).unwrap();
    assert_eq!(plan.steps, vec![Effect::SaveVerge, Effect::UpdateConfig]);
    assert_eq!(plan.undo, vec![RollbackPart::Runtime, RollbackPart::VergeFile]);
    assert_eq!(
        manager.change_core("other", &cores).unwrap_err().summary(),
        "Invalid clash core: other"
    );
    assert_eq!(change_core_message(&outside("x"), &RollbackFailures::Nothing), "x");
    let failures = RollbackFailures::Nothing
        .after(RollbackPart::Runtime, Ok(()))
        .after(RollbackPart::SideEffect(UpdateFlag::Launch), Err(outside("y")));
    assert_eq!(
        failures.text(),
        "UpdateFlags(LAUNCH) side-effect rollback failed: y: cause"
    );
}

#[test]
fn updates_are_debounced() {
    let mut manager = CoreManager::new(Platform::Linux);
    assert!(manager.should_update_config(1000, 500));
    assert!(!manager.should_update_config(1499, 500));
    assert_eq!(manager.get_last_update(), Some(1000));
    assert!(manager.should_update_config(1500, 500));
    assert!(!manager.should_update_config(0, 500));

    let (flow, action) = manager.update_config_with_force(false);
    assert!(matches!(action, UpdateAction::QueryExiting));
    assert!(matches!(
        manager.update_step(500, flow, UpdateEvent::Exiting(true)).1,
        UpdateAction::Finish(Ok(ValidationOutcome::Skipped {
            reason: ValidationSkipReason::Exiting
        }))
    ));
    let (flow, action) = manager.update_step(500, flow, UpdateEvent::Exiting(false));
    assert!(matches!(action, UpdateAction::TryLock));
    let tried = |taken, now| UpdateEvent::LockTried { taken, now };
    assert!(matches!(
        manager.update_step(500, flow, tried(false, 9000)).1,
        UpdateAction::Finish(Ok(ValidationOutcome::Busy))
    ));
    assert!(matches!(
        manager.update_step(500, flow, tried(true, 1600)).1,
        UpdateAction::Finish(Ok(ValidationOutcome::Skipped {
            reason: ValidationSkipReason::Debounced
        }))
    ));
    let (forced, _) = manager.update_config_forced();
    let (forced, _) = manager.update_step(500, forced, UpdateEvent::Exiting(false));
    let (forced, action) = manager.update_step(500, forced, tried(true, 1600));
    assert!(matches!(action, UpdateAction::Perform));
    assert_eq!(manager.get_last_update(), Some(1600));
    let (flow, action) = manager.update_step(
        500,
        forced,
        UpdateEvent::Performed(Ok(ValidationOutcome::Valid)),
    );
    assert_eq!(flow, UpdateFlow::Finished);
    assert!(matches!(action, UpdateAction::Finish(Ok(ValidationOutcome::Valid))));

    match manager.update_config_checked_in_transaction(true, 1700).1 {
        UpdateAction::Finish(Err(error)) => assert_eq!(error.summary(), "application is exiting"),
        other => panic!("{other:?}"),
    }
    assert!(matches!(
        manager.update_config_checked_in_transaction(false, 1700).1,
        UpdateAction::Perform
    ));
    assert!(matches!(manager.update_config_checked().1, UpdateAction::QueryExiting));
    assert!(validation_outcome_to_result(&ValidationOutcome::Valid, String::new()).is_ok());
    assert_eq!(
        validation_outcome_to_result(&ValidationOutcome::Busy, "busy".to_owned())
            .unwrap_err()
            .summary(),
        "busy"
    );
}

#[test]
fn configuration_that_cannot_be_generated_is_invalid() {
    let (flow, action) = perform_config_update();
    assert!(matches!(action, PerformAction::Generate));
    match perform_step(flow, PerformEvent::Generated(Err(failure("bad")))).1 {
        PerformAction::Finish {
            result: Ok(ValidationOutcome::Invalid { message }),
            discard: true,
        } => assert_eq!(message, "bad"),
        other => panic!("{other:?}"),
    }
    let (flow, action) = perform_step(flow, PerformEvent::Generated(Ok(())));
    assert!(matches!(action, PerformAction::ApplyGenerated));
    assert!(matches!(
        perform_step(flow, PerformEvent::Applied(Ok(ValidationOutcome::Valid))).1,
        PerformAction::Finish { result: Ok(ValidationOutcome::Valid), discard: false }
    ));

    let (flow, action) = update_runtime_config();
    assert!(matches!(action, EditAction::TryLock));
    assert!(matches!(
        edit_step(flow, EditEvent::LockTried { taken: false }).1,
        EditAction::Finish(Ok(ValidationOutcome::Busy))
    ));
    let (flow, action) = edit_step(flow, EditEvent::LockTried { taken: true });
    assert!(matches!(action, EditAction::EditAndApply));
    assert!(matches!(
        edit_step(flow, EditEvent::Applied(Ok(ValidationOutcome::Valid))).1,
        EditAction::Finish(Ok(ValidationOutcome::Valid))
    ));

    let manager = CoreManager::new(Platform::Linux);
    let settings = mapping("mode", Value::from("rule"));
    let (flow, action) = manager.use_default_config(&settings);
    match action {
        DefaultConfigAction::Save(runtime) => assert_eq!(runtime.config, Some(settings)),
        _ => panic!("the settings are to be saved"),
    }
    assert!(matches!(
        manager.default_config_step(flow, Ok(())).1,
        DefaultConfigAction::Notify
    ));
    assert!(matches!(
        manager.default_config_step(flow, Err(failure("disk"))).1,
        DefaultConfigAction::Fail(_)
    ));
}

fn drafts(changed: bool, recovery: Option<bool>) -> ApplyEvent {
    let on = |on: bool| runtime_with_tun(mapping("enable", Value::from(on)));
    ApplyEvent::Drafts(RuntimeDrafts {
        committed: on(true),
        latest: on(!changed),
        recovery_before: None,
        recovery_now: recovery,
    })
}

#[test]
fn recovery_target_follows_a_change_of_tun() {
    let manager = manager_in(Platform::Windows, RunningMode::Sidecar);
    let (flow, action) = manager.apply_generate_config_inner();
    assert!(matches!(action, ApplyAction::ReadDrafts));
    let quiet = |event| {
        let flow = ApplyFlow::ReadingDrafts { schedule: true };
        matches!(manager.apply_step(flow, event).1, ApplyAction::Validate)
    };
    assert!(quiet(drafts(false, Some(true))));
    assert!(quiet(drafts(true, Some(false))));
    let (unscheduled, _) = manager.apply_generate_config_inner_with_ics_schedule(false);
    assert!(matches!(
        manager.apply_step(unscheduled, drafts(true, Some(true))).1,
        ApplyAction::Validate
    ));

    let (flow, action) = manager.apply_step(flow, drafts(true, Some(true)));
    assert!(matches!(action, ApplyAction::SnapshotIcs));
    let (flow, action) = manager.apply_step(flow, ApplyEvent::Snapshotted(Ok(recovery_token())));
    assert!(matches!(action, ApplyAction::Validate));
    let (flow, action) =
        manager.apply_step(flow, ApplyEvent::Validated(Ok(ValidationOutcome::Valid)));
    assert!(matches!(action, ApplyAction::ApplyPending));
    let (flow, action) = manager.apply_step(flow, ApplyEvent::Applied(Ok(())));
    assert!(matches!(action, ApplyAction::ConfigureIcs));
    let (flow, action) = manager.apply_step(flow, ApplyEvent::Configured(Err(outside("c"))));
    assert!(matches!(action, ApplyAction::RestoreRuntime));
    let (flow, action) = manager.apply_step(flow, ApplyEvent::RuntimeRestored(Err(outside("r"))));
    match action {
        ApplyAction::RestoreIcs(token) => assert_eq!(token.original.generation, 7),
        other => panic!("{other:?}"),
    }
    match manager.apply_step(flow, ApplyEvent::ServiceRestored(Ok(()))).1 {
        ApplyAction::Finish { result: Err(error), discard: false } => assert_eq!(
            error.detail(),
            "rollback errors: runtime rollback failed: r: cause: c: cause"
        ),
        other => panic!("{other:?}"),
    }
}

#[test]
fn unchecked_configuration_is_given_up() {
    let manager = manager_in(Platform::Linux, RunningMode::Sidecar);
    let (flow, action) = manager.apply_generate_config_inner();
    assert!(matches!(action, ApplyAction::Validate));
    assert!(matches!(
        manager.apply_step(flow, ApplyEvent::Validated(Ok(ValidationOutcome::Busy))).1,
        ApplyAction::Finish { result: Ok(ValidationOutcome::Busy), discard: true }
    ));
    let (flow, _) = manager.apply_generate_config_inner();
    assert!(matches!(
        manager.apply_step(flow, ApplyEvent::Validated(Err(outside("v")))).1,
        ApplyAction::Finish { result: Err(_), discard: true }
    ));
    assert!(matches!(
        manager.apply_step(ApplyFlow::Snapshotting, ApplyEvent::Snapshotted(Err(outside("s")))).1,
        ApplyAction::Finish { result: Err(_), discard: true }
    ));
    let applying = ApplyFlow::Applying { snapshot: None };
    assert!(matches!(
        manager.apply_step(applying, ApplyEvent::Applied(Ok(()))).1,
        ApplyAction::Finish { result: Ok(ValidationOutcome::Valid), discard: false }
    ));
}

#[test]
fn core_that_does_not_reload_is_restarted() {
    let (unwritten, flow, action) = apply_pending_runtime_config();
    assert!(matches!(action, RunOnAction::WriteRunFile));
    assert!(matches!(
        run_on_step(unwritten, flow, RunOnEvent::RunFileWritten(Err(outside("w")))).1,
        RunOnAction::Finish { result: Err(_), fate: DraftFate::Discard }
    ));
    let (kept, _, _) = restore_runtime_in_transaction();
    assert!(matches!(
        run_on_step(kept, flow, RunOnEvent::RunFileWritten(Err(outside("w")))).1,
        RunOnAction::Finish { result: Err(_), fate: DraftFate::Keep }
    ));
    let (flow, action) = run_on_step(unwritten, flow, RunOnEvent::RunFileWritten(Ok(())));
    assert!(matches!(action, RunOnAction::Reload));
    assert_eq!(apply_config().0, flow);
    assert!(matches!(
        run_on_step(unwritten, flow, RunOnEvent::Untellable(failure("p"))).1,
        RunOnAction::Finish { result: Err(_), fate: DraftFate::Discard }
    ));
    assert!(matches!(
        run_on_step(unwritten, flow, RunOnEvent::Reloaded(Ok(()))).1,
        RunOnAction::Finish { result: Ok(()), fate: DraftFate::Apply }
    ));
    let (flow, action) = run_on_step(unwritten, flow, RunOnEvent::Reloaded(Err(failure("r"))));
    assert!(matches!(action, RunOnAction::Restart));
    assert!(matches!(
        run_on_step(unwritten, flow, RunOnEvent::Restarted(Ok(()))).1,
        RunOnAction::Finish { result: Ok(()), fate: DraftFate::Apply }
    ));
    match run_on_step(kept, flow, RunOnEvent::Restarted(Err(outside("x")))).1 {
        RunOnAction::Finish { result: Err(error), fate: DraftFate::Discard } => {
            assert_eq!(error.detail(), "Failed to apply config: x")
        }
        other => panic!("{other:?}"),
    }
}
