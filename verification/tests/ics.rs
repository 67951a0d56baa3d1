use clash_verge::error::{CoreError, Failure, Note};
use clash_verge::manager::CoreManager;
use clash_verge::platform::Platform;
use clash_verge::service::ics::{
    windows_ics_rollback_decision, IcsAction, IcsEvent, IcsFlow, WindowsIcsConnectionSelector,
    WindowsIcsRecoveryConfig, WindowsIcsRecoveryConfigSnapshot, WindowsIcsRollbackDecision,
    WindowsIcsTransactions,
};
use clash_verge::service::ics_request::{
    build_windows_ics_repair_request, configure_windows_ics_recovery_for_config_unlocked,
    windows_ics_recovery_config_from_config, windows_ics_repair_request_from_config,
};
use clash_verge::service::ics_schedule::{
    configure_committed_windows_ics_recovery_with_retry, sync_step, IcsRecoverySchedule, SyncAction,
    SyncEvent, WorkerAction, WorkerEvent, QUIET_PERIOD,
};
use clash_verge::service::ipc::IpcResponse;
use clash_verge::settings::{IRuntime, IVerge};
use serde_yaml_ng::{Mapping, Value};

fn recovery_snapshot(generation: u64, public_guid: &str) -> WindowsIcsRecoveryConfigSnapshot {
    WindowsIcsRecoveryConfigSnapshot {
        generation,
        config: Some(WindowsIcsRecoveryConfig {
            public_connection: WindowsIcsConnectionSelector {
                guid: Some(public_guid.to_owned()),
                name: Some("Mihomo".to_owned()),
            },
            private_connection: WindowsIcsConnectionSelector {
                guid: Some("private-guid".to_owned()),
                name: Some("vEthernet (VMs)".to_owned()),
            },
        }),
    }
}

fn failure(text: &str) -> Failure {
    Failure { summary: text.to_owned(), detail: format!("{text}: cause") }
}

fn reply<T>(code: i32, message: &str, data: Option<T>) -> Result<IpcResponse<T>, Failure> {
    Ok(IpcResponse { code, message: message.to_owned(), data })
}

fn tun_runtime(enable: bool, device: Option<&str>) -> IRuntime {
    let mut tun = Mapping::new();
    tun.insert(Value::from("enable"), Value::from(enable));
    if let Some(device) = device {
        tun.insert(Value::from("device"), Value::from(device));
    }
    let mut config = Mapping::new();
    config.insert(Value::from("tun"), Value::Mapping(tun));
    IRuntime { config: Some(config) }
}

#[test]
fn rollback_uses_only_the_exact_generation_applied_by_this_process() {
    let original = recovery_snapshot(7, "old-public");
    let applied = recovery_snapshot(8, "new-public");

    assert_eq!(
        windows_ics_rollback_decision(&original, &applied, Some(&applied)),
        WindowsIcsRollbackDecision::CompareAndSwap { expected_generation: 8 }
    );
}

#[test]
fn rollback_refuses_to_rebase_over_a_newer_client_target() {
    let original = recovery_snapshot(7, "old-public");
    let newer_client = recovery_snapshot(9, "other-client-public");

    assert_eq!(
        windows_ics_rollback_decision(&original, &newer_client, None),
        WindowsIcsRollbackDecision::Conflict
    );
}

#[test]
fn older_transaction_receipt_cannot_rollback_a_newer_same_process_mutation() {
    let original = recovery_snapshot(7, "old-public");
    let old_transaction_applied = recovery_snapshot(8, "old-transaction-public");
    let newer_transaction_applied = recovery_snapshot(9, "new-transaction-public");

    assert_eq!(
        windows_ics_rollback_decision(
            &original,
            &newer_transaction_applied,
            Some(&old_transaction_applied),
        ),
        WindowsIcsRollbackDecision::Conflict
    );
}

#[test]
fn rollback_is_a_noop_when_the_original_target_is_already_restored() {
    let original = recovery_snapshot(7, "old-public");
    let restored_by_another_client = recovery_snapshot(10, "old-public");

    assert_eq!(
        windows_ics_rollback_decision(&original, &restored_by_another_client, None),
        WindowsIcsRollbackDecision::AlreadyRestored
    );
}

#[test]
fn automatic_ics_repair_requires_both_switches() {
    assert!(build_windows_ics_repair_request(
        false,
        true,
        Some("Mihomo"),
        Some("{private-guid}"),
        None,
        false,
    )
    .unwrap()
    .is_none());
    assert!(build_windows_ics_repair_request(
        true,
        false,
        Some("Mihomo"),
        Some("{private-guid}"),
        None,
        false,
    )
    .unwrap()
    .is_none());
}

#[test]
fn automatic_ics_repair_prefers_private_guid_and_forces_rebind() {
    let request = build_windows_ics_repair_request(
        true,
        true,
        Some("Mihomo"),
        Some("{private-guid}"),
        Some("vEthernet (Private)"),
        true,
    )
    .unwrap()
    .expect("repair request should be created");

    assert_eq!(request.public_connection.guid, None);
    assert_eq!(request.public_connection.name.as_deref(), Some("Mihomo"));
    assert_eq!(request.private_connection.guid.as_deref(), Some("{private-guid}"));
    assert_eq!(request.private_connection.name.as_deref(), Some("vEthernet (Private)"));
    assert!(request.force_rebind);
}

#[test]
fn repair_request_trims_and_defaults() {
    let request = build_windows_ics_repair_request(
        true,
        true,
        Some("  "),
        Some("\u{3000}\t"),
        Some("  vEthernet \u{a0}"),
        false,
    )
    .unwrap()
    .unwrap();
    assert_eq!(request.public_connection.name.as_deref(), Some("Mihomo"));
    assert_eq!(request.private_connection.guid, None);
    assert_eq!(request.private_connection.name.as_deref(), Some("vEthernet"));
    assert!(!request.force_rebind);

    let error = build_windows_ics_repair_request(true, true, None, Some(" "), None, true).unwrap_err();
    assert_eq!(error.summary(), "Windows ICS private adapter is not configured");
}

#[test]
fn repair_request_reads_the_runtime_configuration() {
    let mut verge = IVerge::default();
    verge.enable_windows_ics_recovery = Some(true);
    verge.windows_ics_private_adapter_guid = Some("{guid}".to_owned());

    let request = windows_ics_repair_request_from_config(&verge, &tun_runtime(true, Some("Tun0")), true)
        .unwrap()
        .unwrap();
    assert_eq!(request.public_connection.name.as_deref(), Some("Tun0"));
    assert!(request.force_rebind);

    assert!(windows_ics_repair_request_from_config(&verge, &tun_runtime(false, Some("Tun0")), true)
        .unwrap()
        .is_none());
    assert!(windows_ics_repair_request_from_config(&verge, &IRuntime { config: None }, true)
        .unwrap()
        .is_none());

    let target = windows_ics_recovery_config_from_config(&verge, &tun_runtime(true, None))
        .unwrap()
        .unwrap();
    assert_eq!(target.public_connection.name.as_deref(), Some("Mihomo"));
    assert_eq!(target.private_connection.guid.as_deref(), Some("{guid}"));
}

#[test]
fn target_is_swapped_once_and_can_be_taken_back() {
    let mut ics = WindowsIcsTransactions::new();
    assert_eq!(ics.begin_windows_ics_config_transaction(), 1);
    let token = ics
        .snapshot_windows_ics_recovery(reply(0, "", Some(recovery_snapshot(7, "old"))))
        .unwrap();

    let (flow, action) =
        ics.configure_windows_ics_recovery_target_unlocked(recovery_snapshot(0, "new").config);
    assert!(matches!(action, IcsAction::QuerySnapshot));
    let (flow, action) =
        ics.ics_step(flow, IcsEvent::Snapshot(reply(0, "", Some(recovery_snapshot(7, "old")))));
    match action {
        IcsAction::CompareAndSwap(update) => {
            assert_eq!(update.expected_generation, 7);
            assert_eq!(update.config, recovery_snapshot(0, "new").config);
        }
        other => panic!("{other:?}"),
    }
    let (flow, action) =
        ics.ics_step(flow, IcsEvent::Swapped(reply(0, "", Some(recovery_snapshot(8, "new")))));
    assert!(matches!(flow, IcsFlow::Finished));
    assert!(matches!(action, IcsAction::Finish(Ok(()))));

    let (flow, _) = ics.restore_windows_ics_recovery_snapshot(&token);
    let (flow, action) =
        ics.ics_step(flow, IcsEvent::Snapshot(reply(0, "", Some(recovery_snapshot(8, "new")))));
    match action {
        IcsAction::CompareAndSwap(update) => {
            assert_eq!(update.expected_generation, 8);
            assert_eq!(update.config, recovery_snapshot(0, "old").config);
        }
        other => panic!("{other:?}"),
    }
    let (_, action) = ics.ics_step(flow, IcsEvent::Swapped(reply(3, "changed", None)));
    match action {
        IcsAction::Finish(Err(error)) => assert_eq!(
            error.detail(),
            "unable to restore Windows ICS recovery snapshot from generation 7: \
             changed (expected generation 8, current generation unknown)"
        ),
        other => panic!("{other:?}"),
    }
}

#[test]
fn target_errors_are_told_apart() {
    let mut ics = WindowsIcsTransactions::new();
    let (flow, action) = ics.configure_windows_ics_recovery_target_unlocked(None);
    assert!(matches!(flow, IcsFlow::Finished));
    match action {
        IcsAction::Finish(Err(error)) => assert_eq!(
            error.summary(),
            "Windows ICS mutation requires an active CoreManager config transaction"
        ),
        other => panic!("{other:?}"),
    }

    let id = ics.begin_windows_ics_config_transaction();
    let (flow, _) = ics.configure_windows_ics_recovery_target_unlocked(None);
    let (_, action) = ics.ics_step(flow, IcsEvent::Snapshot(Err(failure("gone"))));
    match action {
        IcsAction::Finish(Err(error)) => assert_eq!(
            error.detail(),
            "unable to snapshot persistent Windows ICS recovery: gone: cause"
        ),
        other => panic!("{other:?}"),
    }

    let (flow, _) = ics.configure_windows_ics_recovery_target_unlocked(None);
    let (_, action) = ics.ics_step(flow, IcsEvent::Snapshot(reply(0, "", None)));
    match action {
        IcsAction::Finish(Err(error)) => {
            assert_eq!(error.summary(), "Windows ICS recovery snapshot returned no data")
        }
        other => panic!("{other:?}"),
    }

    let swap = |ics: &mut WindowsIcsTransactions, swapped| {
        let (flow, _) = ics.configure_windows_ics_recovery_target_unlocked(None);
        let (flow, _) =
            ics.ics_step(flow, IcsEvent::Snapshot(reply(0, "", Some(recovery_snapshot(4, "a")))));
        match ics.ics_step(flow, IcsEvent::Swapped(swapped)).1 {
            IcsAction::Finish(Err(error)) => error.detail(),
            other => panic!("{other:?}"),
        }
    };
    assert_eq!(
        swap(&mut ics, Err(failure("down"))),
        "unable to configure persistent Windows ICS recovery: down: cause"
    );
    assert_eq!(
        swap(&mut ics, reply(1, "no", Some(recovery_snapshot(6, "b")))),
        "no (expected generation 4, current generation 6)"
    );
    assert_eq!(
        swap(&mut ics, reply(0, "", None)),
        "Windows ICS recovery CAS returned no applied snapshot"
    );
    assert_eq!(
        swap(&mut ics, reply(0, "", Some(recovery_snapshot(5, "b")))),
        "Windows ICS recovery CAS returned an unexpected snapshot \
         (expected generation 4, applied generation 5)"
    );

    let token = ics
        .snapshot_windows_ics_recovery(reply(0, "", Some(recovery_snapshot(4, "a"))))
        .unwrap();
    let (flow, _) = ics.restore_windows_ics_recovery_snapshot(&token);
    let (_, action) =
        ics.ics_step(flow, IcsEvent::Snapshot(reply(0, "", Some(recovery_snapshot(9, "z")))));
    match action {
        IcsAction::Finish(Err(error)) => assert_eq!(
            error.summary(),
            "refusing to restore Windows ICS generation 4 over newer unowned generation 9; \
             another client changed the recovery target"
        ),
        other => panic!("{other:?}"),
    }

    ics.end_windows_ics_config_transaction(id);
    ics.begin_windows_ics_config_transaction();
    let (_, action) = ics.restore_windows_ics_recovery_snapshot(&token);
    match action {
        IcsAction::Finish(Err(error)) => assert_eq!(
            error.summary(),
            "refusing to use a Windows ICS rollback token outside its originating config transaction"
        ),
        other => panic!("{other:?}"),
    }
}

#[test]
fn settings_that_ask_for_nothing_clear_the_target() {
    let mut manager = CoreManager::new(Platform::Windows);
    let guard = manager.begin_config_transaction();
    let (flow, action) = configure_windows_ics_recovery_for_config_unlocked(
        &manager.windows_ics,
        &IVerge::default(),
        &tun_runtime(true, None),
    );
    assert!(matches!(action, IcsAction::QuerySnapshot));
    assert!(matches!(flow, IcsFlow::Reading { target: None }));

    let mut verge = IVerge::default();
    verge.enable_windows_ics_recovery = Some(true);
    let (_, action) = configure_windows_ics_recovery_for_config_unlocked(
        &manager.windows_ics,
        &verge,
        &tun_runtime(true, None),
    );
    assert!(matches!(action, IcsAction::Finish(Err(_))));
    manager.end_config_transaction(guard);
}

#[test]
fn synchronization_is_tried_until_its_deadline() {
    let (flow, action) = configure_committed_windows_ics_recovery_with_retry(1000);
    assert!(matches!(action, SyncAction::Try));
    let broken = || CoreError::Plain(clash_verge::error::Message::Note(Note::IcsSnapshotMissing));
    let (flow, action) = sync_step(flow, SyncEvent::Tried { result: Err(broken()), now: 30999 });
    assert!(matches!(action, SyncAction::Sleep { interval: 1000 }));
    let (flow, action) = sync_step(flow, SyncEvent::Slept);
    assert!(matches!(action, SyncAction::Try));
    let (_, action) = sync_step(flow, SyncEvent::Tried { result: Err(broken()), now: 31000 });
    match action {
        SyncAction::Finish(Err(error)) => assert_eq!(
            error.detail(),
            "persistent Windows ICS configuration sync timed out: \
             Windows ICS recovery snapshot returned no data"
        ),
        other => panic!("{other:?}"),
    }
}

#[test]
fn requests_for_a_synchronization_are_coalesced_and_served() {
    let mut schedule = IcsRecoverySchedule::new();
    let (flow, action) = schedule.schedule_windows_ics_recovery().unwrap();
    assert_eq!(action, WorkerAction::Sleep { period: QUIET_PERIOD });
    assert!(schedule.schedule_windows_ics_recovery().is_none());

    let (flow, action) = schedule.worker_step(flow, WorkerEvent::Slept);
    assert_eq!(action, WorkerAction::Sleep { period: 250 });
    let (flow, action) = schedule.worker_step(flow, WorkerEvent::Slept);
    assert_eq!(action, WorkerAction::Synchronize);

    assert!(schedule.schedule_windows_ics_recovery().is_none());
    let (flow, action) = schedule.worker_step(flow, WorkerEvent::Synced);
    assert_eq!(action, WorkerAction::Sleep { period: 250 });
    let (flow, action) = schedule.worker_step(flow, WorkerEvent::Slept);
    assert_eq!(action, WorkerAction::Synchronize);
    let (_, action) = schedule.worker_step(flow, WorkerEvent::Synced);
    assert_eq!(action, WorkerAction::Finish);
    assert!(!schedule.running);
    assert!(schedule.schedule_windows_ics_recovery().is_some());
}
