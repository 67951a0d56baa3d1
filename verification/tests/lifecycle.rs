use clash_verge::error::{CoreError, Failure, Message, Note};
use clash_verge::manager::by_service::{
    RetryTiming, ServiceStartAction, ServiceStartEvent, ServiceStartFlow,
};
use clash_verge::manager::control::{
    LogSource, RestartAction, RestartFlow, StopAction, StopEvent, StopFlow,
};
use clash_verge::manager::handoff::{
    HandoffAction, HandoffEvent, HandoffFlow, HandoffOutcome, RecoverAction, RecoverEvent,
    RecoverFlow, WatchAction, WatchEvent, WatchFlow, WatchTiming,
};
use clash_verge::manager::ownership::{
    acquire_startup_core_owner, lease_step, LeaseAction, LeaseEvent, LeaseFlow, OwnershipAction,
    OwnershipEvent, OwnershipFlow, OwnershipTiming, ServiceSigns, SidecarSafety, StartIntent,
    WindowsStartupPreparation,
};
use clash_verge::manager::sidecar::{
    create_and_assign_process_job, last_win32_error, process_job_step, sidecar_args,
    sidecar_exit_wait, termination_message, ListenAction, ProcessJobAction, ProcessJobFlow,
    SidecarOutput, SidecarStartAction, SidecarStartEvent, SidecarStartFlow, SidecarStopAction,
    SidecarStopEvent, SidecarStopFlow,
};
use clash_verge::manager::startup::{StartAction, StartEvent, StartFlow};
use clash_verge::manager::{CoreManager, RunningMode, SidecarChild, SidecarCoreOwner, SidecarJob};
use clash_verge::platform::Platform;
use clash_verge::service::ics::{WindowsIcsRecoveryConfigSnapshot, WindowsIcsRecoveryTransaction};
use clash_verge::service::ipc::IpcResponse;
use clash_verge::service::status::{ServiceLifecycleState, ServiceStatus, ServiceStatusSnapshot};
use windows_sys::Win32::Foundation::{WAIT_FAILED, WAIT_OBJECT_0, WAIT_TIMEOUT};

fn failure(text: &str) -> Failure {
    Failure { summary: text.to_owned(), detail: format!("{text}: cause") }
}

fn outside(text: &str) -> CoreError {
    CoreError::Outside(failure(text))
}

fn probe_ok() -> Result<ServiceStatusSnapshot, CoreError> {
    Ok(ServiceStatusSnapshot {
        core_pid: None,
        core_owner_held: false,
        service_state: ServiceLifecycleState::Running,
    })
}

fn safety(safe: bool) -> SidecarSafety {
    SidecarSafety {
        ipc_present: false,
        upgrade_pending: false,
        controller_present: !safe,
        scm_allows_sidecar: true,
    }
}

fn signs(now: u64, owner_present: bool) -> ServiceSigns {
    ServiceSigns { now, ipc_present: false, owner_present, scm_allows_sidecar: true }
}

const TIMING: OwnershipTiming = OwnershipTiming { wait_max: 1000, probe_max: 100, interval: 40 };

/// A manager on Windows with a sidecar of generation 1 and process 77.
fn running_sidecar() -> CoreManager {
    let mut manager = CoreManager::new(Platform::Windows);
    let (flow, action) = manager.start_core_by_sidecar();
    assert!(matches!(flow, SidecarStartFlow::Writing { generation: 1 }));
    assert!(matches!(action, SidecarStartAction::WriteRunFile));
    let (flow, action) = manager.sidecar_start_step(flow, SidecarStartEvent::RunFileWritten(Ok(())));
    assert!(matches!(action, SidecarStartAction::BuildCommand));
    let (flow, action) = manager.sidecar_start_step(flow, SidecarStartEvent::Built(Ok(())));
    assert!(matches!(action, SidecarStartAction::PrepareInheritance));
    let (flow, action) = manager.sidecar_start_step(flow, SidecarStartEvent::Inheritable(Ok(())));
    assert!(matches!(action, SidecarStartAction::Spawn));
    let (flow, action) = manager.sidecar_start_step(flow, SidecarStartEvent::Spawned(Ok(77)));
    assert!(matches!(action, SidecarStartAction::AssignJob { pid: 77 }));
    let (flow, action) = manager.sidecar_start_step(flow, SidecarStartEvent::JobAssigned(Ok(())));
    assert!(matches!(action, SidecarStartAction::AttachOwner { pid: 77 }));
    let (flow, action) = manager.sidecar_start_step(flow, SidecarStartEvent::Attached(Ok(())));
    assert!(matches!(flow, SidecarStartFlow::Finished));
    match action {
        SidecarStartAction::Listen(child) => {
            assert_eq!(child, SidecarChild { generation: 1, pid: 77 })
        }
        other => panic!("{other:?}"),
    }
    manager
}

/// The error that attaching to process 77 of a new sidecar ends in, once the
/// process has been killed, or could not be.
fn error_of_start(manager: &mut CoreManager, kill: Result<(), Failure>) -> (Option<u64>, String) {
    let (flow, _) = manager.start_core_by_sidecar();
    let (flow, _) = manager.sidecar_start_step(flow, SidecarStartEvent::RunFileWritten(Ok(())));
    let (flow, _) = manager.sidecar_start_step(flow, SidecarStartEvent::Built(Ok(())));
    let (flow, _) = manager.sidecar_start_step(flow, SidecarStartEvent::Inheritable(Ok(())));
    let (flow, _) = manager.sidecar_start_step(flow, SidecarStartEvent::Spawned(Ok(77)));
    let (flow, _) = manager.sidecar_start_step(flow, SidecarStartEvent::JobAssigned(Ok(())));
    let (flow, action) = manager.sidecar_start_step(flow, SidecarStartEvent::Attached(Ok(())));
    let finish = match action {
        SidecarStartAction::Kill { finish_after_exit } => finish_after_exit,
        other => panic!("{other:?}"),
    };
    match manager.sidecar_start_step(flow, SidecarStartEvent::Killed(kill)).1 {
        SidecarStartAction::Fail(error) => (finish, error.detail()),
        other => panic!("{other:?}"),
    }
}

#[test]
fn config_transaction_gate_is_exclusive() {
    let mut manager = CoreManager::new(Platform::Linux);
    let guard = manager.begin_config_transaction();
    assert!(manager.try_begin_config_transaction().is_none());
    manager.end_config_transaction(guard);
    assert!(manager.try_begin_config_transaction().is_some());
}

#[test]
fn lock_on_windows_opens_one_recovery_transaction_after_the_other() {
    let mut manager = CoreManager::new(Platform::Windows);
    let first = manager.begin_config_transaction();
    assert_eq!(first.windows_ics_scope, Some(1));
    assert!(manager.windows_ics.active.is_some());
    assert!(manager.try_begin_config_transaction().is_none());
    manager.end_config_transaction(first);
    assert!(manager.windows_ics.active.is_none());
    let second = manager.try_begin_config_transaction().unwrap();
    assert_eq!(second.windows_ics_scope, Some(2));
}

#[test]
fn modes_are_named() {
    assert_eq!(RunningMode::Service.name(), "Service");
    assert_eq!(RunningMode::Sidecar.name(), "Sidecar");
    assert_eq!(RunningMode::NotRunning.name(), "NotRunning");
}

#[test]
fn started_sidecar_is_recorded_and_live() {
    let manager = running_sidecar();
    assert_eq!(manager.get_running_mode(), RunningMode::Sidecar);
    assert_eq!(manager.sidecar_job, Some(SidecarJob { generation: 1 }));
    assert_eq!(manager.sidecar_core_owner, Some(SidecarCoreOwner { generation: 1, pid: 77 }));
    assert_eq!(manager.next_sidecar_generation, 2);
    assert!(manager.windows_sidecar_session_is_live(WAIT_TIMEOUT));
    assert!(!manager.windows_sidecar_session_is_live(WAIT_OBJECT_0));
}

#[test]
fn sidecar_elsewhere_is_started_without_lease_and_job() {
    let mut manager = CoreManager::new(Platform::Linux);
    let (flow, _) = manager.start_core_by_sidecar();
    let (flow, _) = manager.sidecar_start_step(flow, SidecarStartEvent::RunFileWritten(Ok(())));
    let (flow, action) = manager.sidecar_start_step(flow, SidecarStartEvent::Built(Ok(())));
    assert!(matches!(action, SidecarStartAction::Spawn));
    let (_, action) = manager.sidecar_start_step(flow, SidecarStartEvent::Spawned(Ok(9)));
    assert!(matches!(action, SidecarStartAction::Listen(SidecarChild { generation: 0, pid: 9 })));
    assert_eq!(manager.running_mode, RunningMode::Sidecar);
    assert_eq!(manager.sidecar_job, None);
    assert_eq!(manager.sidecar_core_owner, None);

    let (flow, action) = manager.stop_core_by_sidecar();
    assert!(matches!(action, SidecarStopAction::Kill(SidecarChild { generation: 0, pid: 9 })));
    let (_, action) =
        manager.sidecar_stop_step(flow, SidecarStopEvent::Killed(Err(failure("denied"))));
    match action {
        SidecarStopAction::Finish(Err(error)) => assert_eq!(error.summary(), "denied"),
        other => panic!("{other:?}"),
    }
    assert_eq!(manager.running_mode, RunningMode::NotRunning);
}

#[test]
fn second_sidecar_is_killed_again() {
    let mut manager = running_sidecar();
    let (finish, detail) = error_of_start(&mut manager, Ok(()));
    assert_eq!(finish, None);
    assert_eq!(detail, "sidecar Job Object is already held by generation 1");
    let (_, detail) = error_of_start(&mut manager, Err(failure("k")));
    assert_eq!(
        detail,
        "failed to retain Job Object for sidecar generation 3 PID 77: sidecar Job Object is \
         already held by generation 1; failed to terminate child: k: cause"
    );

    assert!(manager.release_sidecar_job_if_generation(1));
    assert!(!manager.release_sidecar_job_if_generation(1));
    let (finish, detail) = error_of_start(&mut manager, Err(failure("k")));
    assert_eq!(finish, None);
    assert_eq!(
        detail,
        "failed to retain core owner for sidecar generation 4 PID 77: sidecar core ownership is \
         already held by generation 1 PID 77; failed to terminate child: k: cause"
    );
    assert_eq!(manager.sidecar_job, None);

    manager.sidecar_core_owner = None;
    let (finish, detail) = error_of_start(&mut manager, Err(failure("k")));
    assert_eq!(finish, Some(5));
    assert_eq!(
        detail,
        "failed to commit sidecar generation 5 PID 77: sidecar child is already stored for \
         generation 1 PID 77; failed to terminate child: k: cause"
    );
    assert_eq!(manager.sidecar_core_owner, Some(SidecarCoreOwner { generation: 5, pid: 77 }));
    assert_eq!(manager.sidecar_job, None);
    assert_eq!(manager.child_sidecar, Some(SidecarChild { generation: 1, pid: 77 }));
}

#[test]
fn failed_sidecar_starts_say_why() {
    let step = |events: Vec<SidecarStartEvent>| {
        let mut manager = CoreManager::new(Platform::Windows);
        let (mut flow, mut action) = manager.start_core_by_sidecar();
        for event in events {
            let next = manager.sidecar_start_step(flow, event);
            flow = next.0;
            action = next.1;
        }
        assert_eq!(manager.running_mode, RunningMode::NotRunning);
        assert_eq!(manager.sidecar_job, None);
        match action {
            SidecarStartAction::Fail(error) => error.detail(),
            other => panic!("{other:?}"),
        }
    };
    let written = || SidecarStartEvent::RunFileWritten(Ok(()));
    let built = || SidecarStartEvent::Built(Ok(()));
    let inheritable = || SidecarStartEvent::Inheritable(Ok(()));
    let spawned = || SidecarStartEvent::Spawned(Ok(5));
    assert_eq!(step(vec![SidecarStartEvent::RunFileWritten(Err(outside("w")))]), "w: cause");
    assert_eq!(step(vec![written(), SidecarStartEvent::Built(Err(outside("b")))]), "b: cause");
    assert_eq!(
        step(vec![written(), built(), SidecarStartEvent::Inheritable(Err(failure("i")))]),
        "failed to prepare inherited sidecar core ownership: i: cause"
    );
    assert_eq!(
        step(vec![written(), built(), inheritable(), SidecarStartEvent::Spawned(Err(failure("s")))]),
        "s: cause"
    );
    assert_eq!(
        step(vec![
            written(),
            built(),
            inheritable(),
            spawned(),
            SidecarStartEvent::JobAssigned(Err(outside("j"))),
            SidecarStartEvent::Killed(Err(failure("k"))),
        ]),
        "failed to configure Job Object for sidecar PID 5: j: cause; \
         failed to terminate child: k: cause"
    );
    assert_eq!(
        step(vec![
            written(),
            built(),
            inheritable(),
            spawned(),
            SidecarStartEvent::JobAssigned(Ok(())),
            SidecarStartEvent::Attached(Err(failure("a"))),
            SidecarStartEvent::Killed(Ok(())),
        ]),
        "failed to start sidecar generation 1 PID 5: \
         failed to attach core ownership to sidecar: a: cause"
    );
    assert_eq!(
        step(vec![
            written(),
            built(),
            inheritable(),
            spawned(),
            SidecarStartEvent::JobAssigned(Ok(())),
            SidecarStartEvent::Attached(Err(failure("a"))),
            SidecarStartEvent::Killed(Err(failure("k"))),
        ]),
        "failed to start sidecar generation 1 PID 5: failed to attach core ownership to sidecar: \
         a: cause; failed to terminate sidecar: k: cause"
    );
}

#[test]
fn stop_waits_for_the_lease() {
    let mut manager = running_sidecar();
    manager.set_windows_sidecar_tun_fallback_active(true);
    let (flow, action) = manager.stop_core_by_sidecar();
    assert!(matches!(action, SidecarStopAction::Kill(SidecarChild { generation: 1, pid: 77 })));
    let (flow, action) =
        manager.sidecar_stop_step(flow, SidecarStopEvent::Killed(Err(failure("k"))));
    assert!(matches!(action, SidecarStopAction::AwaitRelease { finish_after_exit: Some(1), .. }));
    assert_eq!(manager.wait_for_sidecar_core_owner_release(1, 77, false).is_none(), true);
    let waited = manager.wait_for_sidecar_core_owner_release(1, 77, true).unwrap();
    let (flow, action) = manager.sidecar_stop_step(flow, SidecarStopEvent::Waited(waited));
    assert!(matches!(flow, SidecarStopFlow::Finished));
    match action {
        SidecarStopAction::Finish(Err(error)) => assert_eq!(
            error.detail(),
            "failed to terminate sidecar generation 1 PID 77: k: cause; timed out waiting for \
             sidecar generation 1 PID 77 to release core ownership"
        ),
        other => panic!("{other:?}"),
    }

    assert!(!manager.finish_after_sidecar_exit(1, 77, Err(failure("join"))));
    assert!(!manager.finish_after_sidecar_exit(1, 77, Ok(sidecar_exit_wait(1, failure("w")))));
    assert!(manager.finish_after_sidecar_exit(1, 77, Ok(sidecar_exit_wait(WAIT_OBJECT_0, failure("")))));
    assert_eq!(manager.sidecar_core_owner, None);
    assert!(!manager.windows_sidecar_tun_fallback_active());
    assert!(matches!(manager.wait_for_sidecar_core_owner_release(1, 77, true), Some(Ok(()))));
}

#[test]
fn old_sidecar_does_not_end_a_new_one() {
    let mut manager = running_sidecar();
    assert!(!manager.finish_sidecar_generation(1, 78));
    assert!(!manager.finish_sidecar_generation(2, 77));
    assert_eq!(manager.running_mode, RunningMode::Sidecar);
    assert!(manager.finish_sidecar_generation(1, 77));
    assert_eq!(manager.running_mode, RunningMode::NotRunning);
    assert_eq!(manager.child_sidecar, None);
    assert_eq!(manager.sidecar_job, None);
    assert_eq!(manager.finished_sidecar_generation, 1);
    assert!(!manager.finish_sidecar_generation(1, 77));
}

#[test]
fn output_of_the_sidecar_is_listened_to() {
    let mut manager = running_sidecar();
    let child = SidecarChild { generation: 1, pid: 77 };
    match manager.listen_to_sidecar(child, SidecarOutput::Line(b"caf\xc3\xa9 \xff".to_vec())) {
        ListenAction::Log(text) => assert_eq!(text, "caf\u{e9} \u{fffd}"),
        other => panic!("{other:?}"),
    }
    assert!(matches!(
        manager.listen_to_sidecar(child, SidecarOutput::Other),
        ListenAction::Continue
    ));
    assert!(matches!(
        manager.listen_to_sidecar(child, SidecarOutput::Closed),
        ListenAction::Stop { finish_after_exit: Some(1) }
    ));
    assert!(manager.sidecar_core_owner.is_some());
    assert!(matches!(
        manager.listen_to_sidecar(child, SidecarOutput::Closed),
        ListenAction::Stop { finish_after_exit: None }
    ));
    match manager.listen_to_sidecar(child, SidecarOutput::Terminated { code: Some(-3), signal: Some(9) }) {
        ListenAction::Terminate { message } => {
            assert_eq!(message, "Process terminated with code: -3")
        }
        other => panic!("{other:?}"),
    }
    assert_eq!(manager.running_mode, RunningMode::NotRunning);
    assert_eq!(termination_message(None, Some(9)), "Process terminated by signal: 9");
    assert_eq!(termination_message(None, None), "Process terminated");
    assert_eq!(
        termination_message(Some(i32::MIN), None),
        "Process terminated with code: -2147483648"
    );
}

#[test]
fn sidecar_arguments_name_the_controller() {
    let pipe = sidecar_args(Platform::Windows, "/home", "/run.yaml", "ctl");
    assert_eq!(pipe, vec!["-d", "/home", "-f", "/run.yaml", "-ext-ctl-pipe", "ctl"]);
    let socket = sidecar_args(Platform::MacOs, "/home", "/run.yaml", "ctl");
    assert_eq!(socket[4], "-ext-ctl-unix");
}

#[test]
fn returns_err_for_invalid_pid() {
    let pid = 0xFFFF_FFFC;
    let (flow, _) = create_and_assign_process_job();
    let (flow, _) = process_job_step(pid, flow, Ok(()));
    let (flow, action) = process_job_step(pid, flow, Ok(()));
    assert!(matches!(action, ProcessJobAction::OpenProcess { pid: 0xFFFF_FFFC }));
    let (flow, action) = process_job_step(pid, flow, Err(failure("no such process")));
    assert_eq!(flow, ProcessJobFlow::Finished);
    match action {
        ProcessJobAction::Fail(error) => {
            assert_eq!(error.detail(), "OpenProcess failed: no such process: cause")
        }
        other => panic!("expected an error for a process that is not there: {other:?}"),
    }
}

#[test]
fn job_object_is_set_up_call_by_call() {
    let (flow, action) = create_and_assign_process_job();
    assert!(matches!(action, ProcessJobAction::CreateJobObject));
    let (flow, action) = process_job_step(4, flow, Ok(()));
    assert!(matches!(action, ProcessJobAction::SetKillOnClose));
    let (flow, action) = process_job_step(4, flow, Ok(()));
    assert!(matches!(action, ProcessJobAction::OpenProcess { pid: 4 }));
    let (flow, action) = process_job_step(4, flow, Ok(()));
    assert!(matches!(action, ProcessJobAction::AssignProcess));
    let (flow, action) = process_job_step(4, flow, Ok(()));
    assert!(matches!(action, ProcessJobAction::Done));
    assert_eq!(flow, ProcessJobFlow::Finished);

    let fail = |flow| match process_job_step(4, flow, Err(failure("code 5"))).1 {
        ProcessJobAction::Fail(error) => error.summary(),
        other => panic!("{other:?}"),
    };
    assert_eq!(fail(ProcessJobFlow::Creating), "CreateJobObjectW failed");
    assert_eq!(fail(ProcessJobFlow::Limiting), "SetInformationJobObject failed");
    assert_eq!(fail(ProcessJobFlow::Opening), "OpenProcess failed");
    assert_eq!(fail(ProcessJobFlow::Assigning), "AssignProcessToJobObject failed");
    assert_eq!(
        last_win32_error(Note::OpenProcess, failure("code 5")).detail(),
        "OpenProcess failed: code 5: cause"
    );
    assert_eq!(
        sidecar_exit_wait(WAIT_FAILED, failure("code 6")).unwrap_err().detail(),
        "WaitForSingleObject failed for sidecar: code 6: cause"
    );
    assert_eq!(
        sidecar_exit_wait(128, failure("")).unwrap_err().summary(),
        "unexpected sidecar wait status 128"
    );
}

#[test]
fn free_lease_is_taken_at_once_and_a_held_one_is_waited_for() {
    let (flow, action) = acquire_startup_core_owner();
    assert!(matches!(action, LeaseAction::TryAcquire));
    let taken = LeaseEvent::Tried { acquired: Ok(true), now: 5 };
    assert!(matches!(lease_step(&TIMING, flow, taken).1, LeaseAction::Finish(Ok(true))));

    let held = |now| LeaseEvent::Tried { acquired: Ok(false), now };
    let (flow, action) = lease_step(&TIMING, flow, held(5));
    assert_eq!(flow, LeaseFlow::Probing { deadline: 1005 });
    assert!(matches!(action, LeaseAction::ProbeService));
    assert!(matches!(
        lease_step(&TIMING, flow, LeaseEvent::Probed(probe_ok())).1,
        LeaseAction::Finish(Ok(false))
    ));
    let (flow, action) = lease_step(&TIMING, flow, LeaseEvent::Probed(Err(outside("down"))));
    assert!(matches!(action, LeaseAction::CheckSafety));
    match lease_step(&TIMING, flow, LeaseEvent::Safety(safety(false))).1 {
        LeaseAction::Finish(Err(error)) => assert_eq!(
            error.summary(),
            "refusing sidecar startup while a legacy/unverified service or unmanaged Mihomo core \
             may still be active"
        ),
        other => panic!("{other:?}"),
    }
    let (flow, action) = lease_step(&TIMING, flow, LeaseEvent::Safety(safety(true)));
    assert!(matches!(action, LeaseAction::TryAcquire));
    let (paused, action) = lease_step(&TIMING, flow, held(1004));
    assert!(matches!(action, LeaseAction::Sleep { interval: 40 }));
    assert!(matches!(
        lease_step(&TIMING, paused, LeaseEvent::Slept).1,
        LeaseAction::ProbeService
    ));
    match lease_step(&TIMING, flow, held(1005)).1 {
        LeaseAction::Finish(Err(error)) => assert_eq!(
            error.summary(),
            "another process retained core ownership but no service control endpoint was confirmed"
        ),
        other => panic!("{other:?}"),
    }
    let broken = || LeaseEvent::Tried { acquired: Err(failure("os")), now: 0 };
    match lease_step(&TIMING, flow, broken()).1 {
        LeaseAction::Finish(Err(error)) => assert_eq!(
            error.detail(),
            "failed to recheck the contended core startup lease: os: cause"
        ),
        other => panic!("{other:?}"),
    }
    match lease_step(&TIMING, LeaseFlow::Trying, broken()).1 {
        LeaseAction::Finish(Err(error)) => {
            assert_eq!(error.detail(), "failed to acquire the core startup lease: os: cause")
        }
        other => panic!("{other:?}"),
    }
}

#[test]
fn quiet_machine_gets_a_sidecar_after_the_short_wait() {
    let mut manager = CoreManager::new(Platform::Windows);
    manager.set_windows_sidecar_tun_fallback_active(true);
    let intent = StartIntent { tun_enabled: true, is_admin: true };
    let (flow, action) = manager.wait_for_initial_service_ownership(intent);
    assert!(matches!(action, OwnershipAction::ScheduleMaintenance));
    let (flow, action) =
        manager.ownership_step(&TIMING, flow, OwnershipEvent::Signs(signs(10, false)));
    assert!(matches!(flow, OwnershipFlow::Probing { deadline: 110, full_deadline: 1010 }));
    assert!(matches!(action, OwnershipAction::ProbeService));
    assert!(!manager.windows_sidecar_tun_fallback_active());

    let down = || OwnershipEvent::Probed(Err(outside("down")));
    let (flow, action) = manager.ownership_step(&TIMING, flow, down());
    assert!(matches!(action, OwnershipAction::LookForSigns));
    let (flow, action) =
        manager.ownership_step(&TIMING, flow, OwnershipEvent::Signs(signs(20, false)));
    assert!(matches!(action, OwnershipAction::SleepUntil { moment: 60 }));
    let (flow, _) = manager.ownership_step(&TIMING, flow, OwnershipEvent::Slept);
    let (flow, _) = manager.ownership_step(&TIMING, flow, down());
    let (flow, action) =
        manager.ownership_step(&TIMING, flow, OwnershipEvent::Signs(signs(90, false)));
    assert!(matches!(action, OwnershipAction::SleepUntil { moment: 110 }));
    let (flow, _) = manager.ownership_step(&TIMING, flow, OwnershipEvent::Slept);
    let (flow, _) = manager.ownership_step(&TIMING, flow, down());
    let (flow, action) =
        manager.ownership_step(&TIMING, flow, OwnershipEvent::Signs(signs(110, true)));
    assert!(matches!(flow, OwnershipFlow::ProbingAtDeadline));
    assert!(matches!(action, OwnershipAction::ProbeService));
    let (flow, action) = manager.ownership_step(&TIMING, flow, down());
    assert!(matches!(action, OwnershipAction::CheckSafety));
    let (flow, action) =
        manager.ownership_step(&TIMING, flow, OwnershipEvent::Safety(safety(true)));
    assert!(matches!(action, OwnershipAction::AcquireLease));
    let (flow, action) = manager.ownership_step(&TIMING, flow, OwnershipEvent::Acquired(Ok(true)));
    assert!(matches!(action, OwnershipAction::ProbeService));
    let (flow, action) = manager.ownership_step(&TIMING, flow, down());
    assert!(matches!(action, OwnershipAction::CheckSafety));
    let (flow, action) =
        manager.ownership_step(&TIMING, flow, OwnershipEvent::Safety(safety(true)));
    assert!(matches!(action, OwnershipAction::ReadIntent));
    let intent = StartIntent { tun_enabled: true, is_admin: false };
    match manager.ownership_step(&TIMING, flow, OwnershipEvent::Intent(intent)).1 {
        OwnershipAction::Finish(Ok(startup)) => assert_eq!(
            startup,
            WindowsStartupPreparation { sidecar_owner: true, tun_fallback: true }
        ),
        other => panic!("{other:?}"),
    }
    assert!(manager.windows_sidecar_tun_fallback_active());
}

#[test]
fn signs_of_a_service_make_the_wait_long() {
    let mut manager = CoreManager::new(Platform::Windows);
    let plain = StartIntent { tun_enabled: false, is_admin: false };
    let (flow, _) = manager.wait_for_initial_service_ownership(plain);
    let (flow, _) = manager.ownership_step(&TIMING, flow, OwnershipEvent::Signs(signs(0, true)));
    assert!(matches!(flow, OwnershipFlow::Probing { deadline: 1000, full_deadline: 1000 }));
    let (flow, _) = manager.wait_for_initial_service_ownership(plain);
    let (flow, _) = manager.ownership_step(&TIMING, flow, OwnershipEvent::Signs(signs(0, false)));
    assert!(matches!(flow, OwnershipFlow::Probing { deadline: 100, full_deadline: 1000 }));
    let (flow, _) =
        manager.ownership_step(&TIMING, flow, OwnershipEvent::Probed(Err(outside("down"))));
    let (flow, _) = manager.ownership_step(&TIMING, flow, OwnershipEvent::Signs(signs(99, true)));
    assert!(matches!(flow, OwnershipFlow::Pausing { deadline: 1000, full_deadline: 1000 }));
    let (flow, _) = manager.ownership_step(&TIMING, flow, OwnershipEvent::Slept);
    match manager.ownership_step(&TIMING, flow, OwnershipEvent::Probed(probe_ok())).1 {
        OwnershipAction::Finish(Ok(startup)) => assert_eq!(
            startup,
            WindowsStartupPreparation { sidecar_owner: false, tun_fallback: false }
        ),
        other => panic!("{other:?}"),
    }

    let refused = |manager: &mut CoreManager, flow| {
        match manager.ownership_step(&TIMING, flow, OwnershipEvent::Safety(safety(false))).1 {
            OwnershipAction::Finish(Err(error)) => error.detail(),
            other => panic!("{other:?}"),
        }
    };
    assert_eq!(
        refused(&mut manager, OwnershipFlow::CheckingSafety { error: outside("down") }),
        "refusing sidecar startup while a legacy/unverified service or unmanaged Mihomo core may \
         still be active: down: cause"
    );
    assert_eq!(
        refused(&mut manager, OwnershipFlow::RecheckingSafety { error: outside("down") }),
        "service/core state changed after lease acquisition; refusing unsafe sidecar startup: \
         down: cause"
    );
}

/// Starts the core up to the moment where it is launched.
fn launch(
    manager: &mut CoreManager,
    startup: WindowsStartupPreparation,
) -> (StartFlow, StartAction) {
    let (flow, action) = manager.start_core();
    assert!(matches!(action, StartAction::QueryExiting));
    let (flow, action) = manager.start_step(flow, StartEvent::Exiting(false));
    assert!(matches!(action, StartAction::PrepareStartup));
    let prepared = manager.prepare_startup(Ok(startup));
    let (flow, action) = manager.start_step(flow, StartEvent::Prepared(prepared));
    assert!(matches!(action, StartAction::QueryExiting));
    manager.start_step(flow, StartEvent::Exiting(false))
}

#[test]
fn start_through_the_service_takes_the_configuration_over() {
    let mut manager = CoreManager::new(Platform::Windows);
    let service = WindowsStartupPreparation { sidecar_owner: false, tun_fallback: false };
    let (flow, action) = launch(&mut manager, service);
    assert!(matches!(action, StartAction::Generate));
    let (flow, action) = manager.start_step(flow, StartEvent::Generated(Ok(())));
    assert!(matches!(action, StartAction::StartByService));
    let (flow, action) = manager.start_step(flow, StartEvent::Started(Ok(())));
    assert!(matches!(action, StartAction::ApplyRuntime));
    let (flow, action) = manager.start_step(flow, StartEvent::Applied);
    assert!(matches!(flow, StartFlow::Finished));
    assert!(matches!(
        action,
        StartAction::Finish { result: Ok(()), reported: Some(RunningMode::Service), watch: false }
    ));

    let (flow, _) = manager.init();
    assert!(matches!(
        manager.start_step(flow, StartEvent::Exiting(false)).1,
        StartAction::Finish { result: Ok(()), reported: None, watch: false }
    ));
}

#[test]
fn failed_service_start_keeps_only_a_confirmed_core() {
    let service = WindowsStartupPreparation { sidecar_owner: false, tun_fallback: false };
    for confirmed in [true, false] {
        let mut manager = CoreManager::new(Platform::Windows);
        let (flow, _) = launch(&mut manager, service);
        let (flow, action) = manager.start_step(flow, StartEvent::Generated(Err(outside("g"))));
        assert!(matches!(action, StartAction::QueryServiceCore));
        let mode = if confirmed { RunningMode::Service } else { RunningMode::NotRunning };
        match manager.start_step(flow, StartEvent::ServiceCore(Ok(confirmed))).1 {
            StartAction::Finish { result: Err(error), reported, watch: false } => {
                assert_eq!(
                    error.detail(),
                    "failed to regenerate user intent before service startup: g: cause"
                );
                assert_eq!(reported, Some(mode));
            }
            other => panic!("{other:?}"),
        }
        assert_eq!(manager.running_mode, mode);
    }
}

#[test]
fn sidecar_start_with_fallback_is_settled_or_rolled_back() {
    let fallback = WindowsStartupPreparation { sidecar_owner: true, tun_fallback: true };

    let mut manager = CoreManager::new(Platform::Windows);
    let (flow, action) = launch(&mut manager, fallback);
    assert!(matches!(action, StartAction::StartBySidecar));
    let (flow, action) = manager.start_step(flow, StartEvent::Started(Err(outside("s"))));
    assert!(matches!(action, StartAction::WriteRunFile));
    match manager.start_step(flow, StartEvent::RunFileWritten(Err(failure("w")))).1 {
        StartAction::Finish { result: Err(error), reported: Some(RunningMode::NotRunning), .. } => {
            assert_eq!(
                error.detail(),
                "failed to roll back the uncommitted TUN sidecar fallback: \
                 runtime file rollback failed: w: cause: s: cause"
            )
        }
        other => panic!("{other:?}"),
    }

    let mut manager = running_sidecar();
    manager.set_windows_sidecar_tun_fallback_active(true);
    let started = StartFlow::Starting { attempted_service: false, fallback: true };
    let (flow, action) = manager.start_step(started, StartEvent::Started(Ok(())));
    assert!(matches!(action, StartAction::ProbeSession));
    let alive = StartEvent::SessionProbed { wait_status: WAIT_TIMEOUT };
    let (flow, action) = manager.start_step(flow, alive);
    assert!(matches!(action, StartAction::ApplyRuntime));
    assert!(matches!(
        manager.start_step(flow, StartEvent::Applied).1,
        StartAction::Finish { result: Ok(()), reported: Some(RunningMode::Sidecar), watch: true }
    ));
    assert!(manager.windows_sidecar_tun_fallback_active());

    let started = StartFlow::Starting { attempted_service: false, fallback: true };
    let (flow, _) = manager.start_step(started, StartEvent::Started(Ok(())));
    let over = StartEvent::SessionProbed { wait_status: WAIT_OBJECT_0 };
    let (flow, action) = manager.start_step(flow, over);
    assert!(matches!(action, StartAction::WriteRunFile));
    assert!(!manager.windows_sidecar_tun_fallback_active());
    match manager.start_step(flow, StartEvent::RunFileWritten(Ok(()))).1 {
        StartAction::Finish { result: Err(error), .. } => assert_eq!(
            error.summary(),
            "sidecar exited before the session-only TUN fallback could be committed"
        ),
        other => panic!("{other:?}"),
    }
    let restoring = StartFlow::RestoringRunFile { attempted_service: false };
    match manager.start_step(restoring, StartEvent::RunFileWritten(Err(failure("w")))).1 {
        StartAction::Finish { result: Err(error), .. } => assert_eq!(
            error.detail(),
            "failed to restore the durable Run file after an early sidecar exit: w: cause"
        ),
        other => panic!("{other:?}"),
    }
    assert_eq!(manager.running_mode, RunningMode::NotRunning);
}

#[test]
fn start_that_meets_an_exit_leaves_nothing_behind() {
    let mut manager = CoreManager::new(Platform::Windows);
    let (flow, _) = manager.start_core();
    assert!(matches!(
        manager.start_step(flow, StartEvent::Exiting(true)).1,
        StartAction::Finish { result: Ok(()), reported: None, watch: false }
    ));

    let startup = WindowsStartupPreparation { sidecar_owner: true, tun_fallback: true };
    let flow = StartFlow::RecheckingExit { startup };
    let (flow, action) = manager.start_step(flow, StartEvent::Exiting(true));
    assert!(matches!(action, StartAction::WriteRunFile));
    match manager.start_step(flow, StartEvent::RunFileWritten(Err(failure("w")))).1 {
        StartAction::Finish { result: Err(error), .. } => assert_eq!(
            error.summary(),
            "application began exiting during sidecar preparation; rollback errors: \
             runtime file rollback failed: w: cause"
        ),
        other => panic!("{other:?}"),
    }

    manager.set_running_mode(RunningMode::Sidecar);
    let startup = WindowsStartupPreparation { sidecar_owner: false, tun_fallback: false };
    let flow = StartFlow::RecheckingExit { startup };
    match manager.start_step(flow, StartEvent::Exiting(false)).1 {
        StartAction::Finish { result: Err(error), .. } => assert_eq!(
            error.summary(),
            "sidecar startup selected without an acquired core owner"
        ),
        other => panic!("{other:?}"),
    }
}

#[test]
fn elsewhere_a_ready_service_runs_the_core() {
    let mut manager = CoreManager::new(Platform::MacOs);
    manager.prepare_startup_by_status(&ServiceStatus::Ready);
    assert_eq!(manager.running_mode, RunningMode::Service);
    manager.prepare_startup_by_status(&ServiceStatus::NeedsReinstall);
    assert_eq!(manager.running_mode, RunningMode::Sidecar);
}

fn recovery_token(manager: &mut CoreManager) -> WindowsIcsRecoveryTransaction {
    let _guard = manager.begin_config_transaction();
    let snapshot = WindowsIcsRecoveryConfigSnapshot { generation: 7, config: None };
    let reply = IpcResponse { code: 0, message: String::new(), data: Some(snapshot) };
    manager.windows_ics.snapshot_windows_ics_recovery(Ok(reply)).unwrap()
}

#[test]
fn service_start_is_tried_again_and_then_undone() {
    let timing = RetryTiming { retries: 2, delay: 30 };
    let mut manager = CoreManager::new(Platform::Windows);
    let token = recovery_token(&mut manager);
    let (flow, action) = manager.start_core_by_service();
    assert!(matches!(action, ServiceStartAction::WriteRunFile));
    let (flow, action) =
        manager.service_start_step(&timing, flow, ServiceStartEvent::RunFileWritten(Ok(())));
    assert!(matches!(action, ServiceStartAction::SnapshotIcs));
    let (flow, action) =
        manager.service_start_step(&timing, flow, ServiceStartEvent::Snapshotted(Ok(token)));
    assert!(matches!(action, ServiceStartAction::ConfigureIcs));
    let (flow, action) =
        manager.service_start_step(&timing, flow, ServiceStartEvent::Configured(Ok(())));
    assert!(matches!(action, ServiceStartAction::RunCore));
    let (flow, action) =
        manager.service_start_step(&timing, flow, ServiceStartEvent::Ran(Err(outside("r"))));
    assert!(matches!(action, ServiceStartAction::QueryServiceCore));
    let (flow, action) =
        manager.service_start_step(&timing, flow, ServiceStartEvent::ServiceCore(Ok(false)));
    assert!(matches!(action, ServiceStartAction::Sleep { delay: 30 }));
    let (flow, action) = manager.service_start_step(&timing, flow, ServiceStartEvent::Slept);
    assert!(matches!(action, ServiceStartAction::ConfigureIcs));
    let (flow, action) =
        manager.service_start_step(&timing, flow, ServiceStartEvent::Configured(Err(outside("c"))));
    match action {
        ServiceStartAction::RestoreIcs(token) => assert_eq!(token.original.generation, 7),
        other => panic!("{other:?}"),
    }
    let (flow, action) =
        manager.service_start_step(&timing, flow, ServiceStartEvent::Restored(Err(outside("u"))));
    assert!(matches!(flow, ServiceStartFlow::Finished));
    match action {
        ServiceStartAction::Finish { result: Err(error), schedule_ics: false } => assert_eq!(
            error.detail(),
            "failed to restore persistent Windows ICS config after StartClash retries: u: cause: \
             c: cause"
        ),
        other => panic!("{other:?}"),
    }
    assert_eq!(manager.running_mode, RunningMode::NotRunning);
}

#[test]
fn ambiguous_service_start_is_confirmed_by_the_status() {
    let timing = RetryTiming { retries: 1, delay: 30 };
    let mut manager = CoreManager::new(Platform::Windows);
    let snapshot = recovery_token(&mut manager);
    let flow = ServiceStartFlow::Confirming { attempt: 0, snapshot, error: outside("r") };
    let (_, action) =
        manager.service_start_step(&timing, flow, ServiceStartEvent::ServiceCore(Ok(true)));
    assert!(matches!(
        action,
        ServiceStartAction::Finish { result: Ok(()), schedule_ics: true }
    ));
    assert_eq!(manager.running_mode, RunningMode::Service);

    let mut manager = CoreManager::new(Platform::Linux);
    let (flow, _) = manager.start_core_by_service();
    let (flow, action) =
        manager.service_start_step(&timing, flow, ServiceStartEvent::RunFileWritten(Ok(())));
    assert!(matches!(action, ServiceStartAction::RunCore));
    let (_, action) = manager.service_start_step(&timing, flow, ServiceStartEvent::Ran(Ok(())));
    assert!(matches!(
        action,
        ServiceStartAction::Finish { result: Ok(()), schedule_ics: false }
    ));

    let none = RetryTiming { retries: 0, delay: 0 };
    let mut manager = CoreManager::new(Platform::Windows);
    let (flow, _) = manager.start_core_by_service();
    match manager.service_start_step(&none, flow, ServiceStartEvent::RunFileWritten(Ok(()))).1 {
        ServiceStartAction::Finish { result: Err(error), .. } => {
            assert_eq!(error.summary(), "service start failed")
        }
        other => panic!("{other:?}"),
    }
}

#[test]
fn stopping_and_restarting() {
    let mut manager = CoreManager::new(Platform::Linux);
    let (flow, action) = manager.stop_core();
    assert!(matches!(action, StopAction::ClearLogs));
    assert!(matches!(
        manager.stop_step(flow, StopEvent::LogsCleared).1,
        StopAction::Finish { result: Ok(()), reported: RunningMode::NotRunning }
    ));
    assert_eq!(manager.get_clash_logs(), LogSource::Nowhere);

    manager.set_running_mode(RunningMode::Service);
    assert_eq!(manager.get_clash_logs(), LogSource::Service);
    let (flow, action) = manager.stop_step(StopFlow::ClearingLogs, StopEvent::LogsCleared);
    assert!(matches!(action, StopAction::StopByService));
    let stopped = manager.stop_core_by_service(Err(outside("x")));
    match manager.stop_step(flow, StopEvent::Stopped(stopped)).1 {
        StopAction::Finish { result: Err(error), reported: RunningMode::NotRunning } => {
            assert_eq!(error.summary(), "x")
        }
        other => panic!("{other:?}"),
    }

    manager.set_running_mode(RunningMode::Sidecar);
    assert_eq!(manager.get_clash_logs(), LogSource::Sidecar);
    assert!(matches!(
        manager.stop_step(StopFlow::ClearingLogs, StopEvent::LogsCleared).1,
        StopAction::StopBySidecar
    ));

    let (flow, action) = manager.restart_core();
    assert!(matches!(action, RestartAction::Stop));
    match manager.restart_step(flow, Err(outside("x"))).1 {
        RestartAction::Finish(Err(error)) => assert_eq!(error.summary(), "x"),
        other => panic!("{other:?}"),
    }
    let (flow, action) = manager.restart_step(flow, Ok(()));
    assert!(matches!(action, RestartAction::Start));
    let (flow, action) = manager.restart_step(flow, Ok(()));
    assert!(matches!(action, RestartAction::Finish(Ok(()))));
    assert_eq!(flow, RestartFlow::Finished);
}

#[test]
fn core_is_handed_over_to_a_service_that_answers() {
    let mut manager = running_sidecar();
    manager.set_windows_sidecar_tun_fallback_active(true);
    let (flow, action) = manager.try_handoff_sidecar_to_service();
    assert!(matches!(action, HandoffAction::ScheduleMaintenance));
    let (flow, action) = manager.handoff_step(flow, HandoffEvent::MaintenanceScheduled);
    assert!(matches!(action, HandoffAction::ProbeService));
    assert!(matches!(
        manager.handoff_step(flow, HandoffEvent::Probed(Err(outside("down")))).1,
        HandoffAction::Finish(HandoffOutcome::NotReady)
    ));
    let (flow, action) = manager.handoff_step(flow, HandoffEvent::Probed(probe_ok()));
    assert!(matches!(action, HandoffAction::TryLock));
    assert!(matches!(
        manager.handoff_step(flow, HandoffEvent::LockTried { taken: false }).1,
        HandoffAction::Finish(HandoffOutcome::NotReady)
    ));
    let (flow, action) = manager.handoff_step(flow, HandoffEvent::LockTried { taken: true });
    assert!(matches!(action, HandoffAction::AwaitLifecycle));
    let (flow, action) = manager.handoff_step(flow, HandoffEvent::LifecycleTaken);
    assert!(matches!(action, HandoffAction::ProbeService));
    let (flow, action) = manager.handoff_step(flow, HandoffEvent::Probed(probe_ok()));
    assert_eq!(flow, HandoffFlow::Generating { fallback: true });
    assert!(matches!(action, HandoffAction::Generate));
    assert!(matches!(
        manager.handoff_step(flow, HandoffEvent::Generated(Err(outside("g")))).1,
        HandoffAction::Finish(HandoffOutcome::Failed)
    ));
    let (flow, action) = manager.handoff_step(flow, HandoffEvent::Generated(Ok(())));
    assert!(matches!(action, HandoffAction::StopSidecar));
    assert!(matches!(
        manager.handoff_step(flow, HandoffEvent::Stopped(Err(outside("s")))).1,
        HandoffAction::Finish(HandoffOutcome::Failed)
    ));
    let (flow, action) = manager.handoff_step(flow, HandoffEvent::Stopped(Ok(())));
    assert!(matches!(action, HandoffAction::StartByService));
    let (recovering, action) = manager.handoff_step(flow, HandoffEvent::Started(Err(outside("x"))));
    assert!(matches!(action, HandoffAction::Recover { restore_tun_fallback: true }));
    assert!(matches!(
        manager.handoff_step(recovering, HandoffEvent::Recovered).1,
        HandoffAction::Finish(HandoffOutcome::Failed)
    ));
    let (flow, action) = manager.handoff_step(flow, HandoffEvent::Started(Ok(())));
    assert!(matches!(action, HandoffAction::ApplyRuntime));
    assert!(matches!(
        manager.handoff_step(flow, HandoffEvent::Applied).1,
        HandoffAction::Finish(HandoffOutcome::Done)
    ));

    manager.set_running_mode(RunningMode::NotRunning);
    assert!(matches!(
        manager.handoff_step(HandoffFlow::TakingLifecycle, HandoffEvent::LifecycleTaken).1,
        HandoffAction::Finish(HandoffOutcome::Done)
    ));
}

#[test]
fn sidecar_comes_back_only_where_that_is_safe() {
    let mut manager = running_sidecar();
    manager.set_windows_sidecar_tun_fallback_active(true);
    let (flow, action) = manager.recover_sidecar_after_failed_handoff(true);
    assert!(!manager.windows_sidecar_tun_fallback_active());
    assert!(matches!(action, RecoverAction::TryAcquire));
    let (flow, action) = manager.recover_step(flow, RecoverEvent::Tried(Ok(true)));
    assert!(matches!(action, RecoverAction::ProbeService));
    let (flow, action) = manager.recover_step(flow, RecoverEvent::Probed(Err(outside("down"))));
    assert!(matches!(action, RecoverAction::CheckSafety));
    let (flow, action) = manager.recover_step(flow, RecoverEvent::Safety(safety(true)));
    assert!(matches!(action, RecoverAction::StartSidecar));
    assert!(manager.windows_sidecar_tun_fallback_active());
    let (flow, action) = manager.recover_step(flow, RecoverEvent::Started(Ok(())));
    assert!(matches!(action, RecoverAction::ProbeSession));
    let (applying, action) =
        manager.recover_step(flow, RecoverEvent::SessionProbed { wait_status: WAIT_TIMEOUT });
    assert!(matches!(action, RecoverAction::ApplyRuntime));
    assert!(matches!(
        manager.recover_step(applying, RecoverEvent::Applied).1,
        RecoverAction::Finish
    ));
    assert_eq!(manager.running_mode, RunningMode::Sidecar);

    let (flow, action) =
        manager.recover_step(flow, RecoverEvent::SessionProbed { wait_status: WAIT_OBJECT_0 });
    assert_eq!(flow, RecoverFlow::Abandoning);
    assert!(matches!(action, RecoverAction::WriteRunFile));
    assert!(!manager.windows_sidecar_tun_fallback_active());
    let (flow, _) = manager.recover_step(flow, RecoverEvent::RunFileWritten(Err(failure("w"))));
    assert!(matches!(
        manager.recover_step(flow, RecoverEvent::Applied).1,
        RecoverAction::Finish
    ));
    assert_eq!(manager.running_mode, RunningMode::NotRunning);

    let (flow, _) = manager.recover_sidecar_after_failed_handoff(false);
    let (flow, action) = manager.recover_step(flow, RecoverEvent::Tried(Ok(false)));
    assert!(matches!(action, RecoverAction::ApplyRuntime));
    let (flow, action) = manager.recover_step(flow, RecoverEvent::Applied);
    assert!(matches!(action, RecoverAction::QueryServiceCore));
    assert!(matches!(
        manager.recover_step(flow, RecoverEvent::ServiceCore(Ok(true))).1,
        RecoverAction::Finish
    ));
    assert_eq!(manager.running_mode, RunningMode::Service);
}

#[test]
fn watcher_ends_and_is_rearmed() {
    let timing = WatchTiming { window: 100, interval: 20 };
    let mut manager = running_sidecar();
    let (flow, action) = manager.spawn_service_handoff_watcher(1000).unwrap();
    assert_eq!(action, WatchAction::ReadClock);
    assert!(manager.spawn_service_handoff_watcher(1001).is_none());
    let (flow, action) = manager.watch_step(&timing, flow, WatchEvent::Clock { now: 1099 });
    assert_eq!(action, WatchAction::Sleep { interval: 20 });
    let (flow, action) = manager.watch_step(&timing, flow, WatchEvent::Slept);
    assert_eq!(action, WatchAction::TryHandoff);
    let (flow, action) =
        manager.watch_step(&timing, flow, WatchEvent::Attempted(HandoffOutcome::NotReady));
    assert_eq!(action, WatchAction::ReadClock);
    let (flow, action) = manager.watch_step(&timing, flow, WatchEvent::Clock { now: 1100 });
    assert_eq!(flow, WatchFlow::Finished);
    assert_eq!(action, WatchAction::Finish { rearm: true });
    assert!(!manager.handoff_watcher_running);

    let (flow, _) = manager.spawn_service_handoff_watcher(2000).unwrap();
    let (flow, _) = manager.watch_step(&timing, flow, WatchEvent::Clock { now: 2000 });
    manager.set_running_mode(RunningMode::Service);
    let (_, action) = manager.watch_step(&timing, flow, WatchEvent::Slept);
    assert_eq!(action, WatchAction::Finish { rearm: false });
}

#[test]
fn errors_are_told_shortly_and_in_full() {
    let error = CoreError::Plain(Message::ChildStored { generation: 3, pid: 4 });
    assert_eq!(error.summary(), "sidecar child is already stored for generation 3 PID 4");
    assert_eq!(error.detail(), error.summary());
    let error = outside("x");
    assert_eq!(error.summary(), "x");
    assert_eq!(error.detail(), "x: cause");
}
