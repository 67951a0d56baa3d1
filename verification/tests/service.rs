use clash_verge::error::{CoreError, Failure, Message, Note};
use clash_verge::platform::Platform;
use clash_verge::service::client::{
    core_config, get_clash_logs_by_service, is_service_available, run_core_by_service, run_core_step,
    start_with_existing_service, stop_core_by_service, RunCoreAction,
};
use clash_verge::service::command::ServiceCommand;
use clash_verge::service::install::{
    check_output_error, install_result, install_service, install_step, output_error,
    reinstall_service, reinstall_step, uninstall_result, uninstall_service, InstallAction,
    InstallEvent, InstallOutcome, LocatedProgram, ProgramOutput, ReinstallAction, Rights, RunMethod,
};
use clash_verge::service::ipc::IpcResponse;
use clash_verge::service::macos::{
    core_binary_name, escape_osascript_double_quoted_string, is_macos_app_translocated, join_path,
    macos_app_bundle_name, macos_cleanup_translocated_desired_state_shell,
    macos_core_path_candidates, macos_core_path_in_install_roots, macos_force_stop_core_shell,
    macos_install_command, macos_uninstall_command, path_segments, service_core_path,
    shell_single_quote, stable_macos_core_path_for_translocated_app,
};
use clash_verge::service::maintenance::{
    schedule_startup_service_maintenance, MaintenanceAction, MaintenanceEvent, MaintenanceTiming,
};
use clash_verge::service::scm::{
    classify_installed_windows_scm_state, is_service_owner_present, parse_owner_lock, parse_pid,
    query_windows_scm_service_state, service_owner_trace, windows_scm_allows_sidecar,
    windows_scm_state_allows_sidecar, OwnerTrace, ProcessProbe, ScmProbe, WindowsScmServiceState,
};
use clash_verge::service::status::{
    incompatible_service_upgrade_pending, ipc_attempt, mark_incompatible_service_upgrade_pending,
    query_compatible_service_status, query_service_status, run_service_command,
    service_core_running, service_status_confirms_running_core, ProbeAction, ProbeEvent,
    ServiceAction, ServiceEvent, ServiceLifecycleState, ServiceManager, ServiceStatus,
    ServiceStatusSnapshot,
};
use windows_sys::Win32::Foundation::{
    ERROR_INVALID_PARAMETER, ERROR_SERVICE_DOES_NOT_EXIST, STILL_ACTIVE,
};
use windows_sys::Win32::System::Services::SERVICE_STOPPED;

fn failure(text: &str) -> Failure {
    Failure { summary: text.to_owned(), detail: format!("{text}: cause") }
}

fn reply<T>(code: i32, message: &str, data: Option<T>) -> Result<IpcResponse<T>, Failure> {
    Ok(IpcResponse { code, message: message.to_owned(), data })
}

fn running(core_pid: Option<u32>) -> ServiceStatusSnapshot {
    ServiceStatusSnapshot {
        core_pid,
        core_owner_held: false,
        service_state: ServiceLifecycleState::Running,
    }
}

#[test]
fn only_absent_scm_service_allows_legacy_safe_sidecar_fallback() {
    assert!(windows_scm_state_allows_sidecar(WindowsScmServiceState::Absent));
    assert!(!windows_scm_state_allows_sidecar(WindowsScmServiceState::Stopped));
    assert!(!windows_scm_state_allows_sidecar(WindowsScmServiceState::Active));
    assert_eq!(
        classify_installed_windows_scm_state(SERVICE_STOPPED),
        WindowsScmServiceState::Stopped
    );
    assert_eq!(
        classify_installed_windows_scm_state(SERVICE_STOPPED + 1),
        WindowsScmServiceState::Active
    );
}

#[test]
fn ambiguous_service_start_requires_running_lifecycle_and_pid() {
    assert!(service_status_confirms_running_core(Some(42), ServiceLifecycleState::Running));
    assert!(!service_status_confirms_running_core(None, ServiceLifecycleState::Running));
    assert!(!service_status_confirms_running_core(Some(42), ServiceLifecycleState::Fatal));
}

#[test]
fn scm_probe_is_read() {
    let absent = ScmProbe::ServiceRefused {
        code: ERROR_SERVICE_DOES_NOT_EXIST,
        failure: failure("missing"),
    };
    assert_eq!(windows_scm_allows_sidecar(absent).unwrap(), true);
    let stopped = ScmProbe::Status { current_state: SERVICE_STOPPED };
    assert_eq!(windows_scm_allows_sidecar(stopped).unwrap(), false);
    let detail = |probe| query_windows_scm_service_state(probe).unwrap_err().detail();
    assert_eq!(
        detail(ScmProbe::ManagerRefused(failure("a"))),
        "unable to open Windows Service Control Manager: a: cause"
    );
    assert_eq!(
        detail(ScmProbe::ServiceRefused { code: 5, failure: failure("b") }),
        "unable to open clash_verge_service for status query: b: cause"
    );
    assert_eq!(
        detail(ScmProbe::StatusRefused(failure("c"))),
        "unable to query clash_verge_service status: c: cause"
    );
}

#[test]
fn owner_files_are_read() {
    assert_eq!(parse_pid("42"), Some(42));
    assert_eq!(parse_pid("+007"), Some(7));
    assert_eq!(parse_pid("4294967295"), Some(4294967295));
    assert_eq!(parse_pid("4294967296"), None);
    assert_eq!(parse_pid(""), None);
    assert_eq!(parse_pid("+"), None);
    assert_eq!(parse_pid("-1"), None);
    assert_eq!(parse_pid("4x"), None);

    assert_eq!(parse_owner_lock("host=a\r\npid= 17 \r\n"), Some(17));
    assert_eq!(parse_owner_lock("pid=x\npid=9"), Some(9));
    assert_eq!(parse_owner_lock("mypid=9\n"), None);
    assert_eq!(parse_owner_lock(""), None);

    let text = |s: &str| Some(s.to_owned());
    assert_eq!(service_owner_trace(false, false, &text("1"), &None), OwnerTrace::Absent);
    assert_eq!(service_owner_trace(true, false, &None, &None), OwnerTrace::Unnamed);
    assert_eq!(
        service_owner_trace(true, true, &text(" 5\n"), &text("pid=6")),
        OwnerTrace::Process(5)
    );
    assert_eq!(
        service_owner_trace(true, true, &text("junk"), &text("pid=6")),
        OwnerTrace::Process(6)
    );

    let gone = ProcessProbe::Refused { code: ERROR_INVALID_PARAMETER };
    let denied = ProcessProbe::Refused { code: 5 };
    assert!(!is_service_owner_present(OwnerTrace::Absent, denied));
    assert!(is_service_owner_present(OwnerTrace::Unnamed, gone));
    assert!(!is_service_owner_present(OwnerTrace::Process(5), gone));
    assert!(is_service_owner_present(OwnerTrace::Process(5), denied));
    assert!(!is_service_owner_present(OwnerTrace::Process(5), ProcessProbe::Unreadable));
    assert!(is_service_owner_present(
        OwnerTrace::Process(5),
        ProcessProbe::ExitCode(STILL_ACTIVE as u32)
    ));
    assert!(!is_service_owner_present(OwnerTrace::Process(5), ProcessProbe::ExitCode(0)));
}

#[test]
fn refresh_of_a_matching_service_is_ready() {
    let mut manager = ServiceManager::new(Platform::Windows);
    assert_eq!(manager.current(), Some(ServiceStatus::Unavailable("Need Checks".to_owned())));
    let (flow, action) = manager.refresh();
    assert!(matches!(action, ServiceAction::QueryReinstallNeeded));
    assert_eq!(manager.current(), None);

    let (_, second) = manager.refresh();
    match second {
        ServiceAction::Finish(Err(error)) => {
            assert_eq!(error.summary(), "service operation already running")
        }
        other => panic!("{other:?}"),
    }

    let (flow, action) = manager.service_step(flow, ServiceEvent::ReinstallNeeded(false));
    assert!(matches!(action, ServiceAction::UpdateMenu));
    assert_eq!(manager.current(), Some(ServiceStatus::Ready));
    let (_, action) = manager.service_step(flow, ServiceEvent::MenuUpdated(Err(failure("tray"))));
    match action {
        ServiceAction::Finish(Err(error)) => assert_eq!(error.summary(), "tray"),
        other => panic!("{other:?}"),
    }
    assert!(!incompatible_service_upgrade_pending(&manager));
}

#[test]
fn installation_of_another_version_is_followed_by_one_reinstallation() {
    let mut manager = ServiceManager::new(Platform::Windows);
    let (flow, action) = manager.handle_service_status(ServiceStatus::InstallRequired);
    assert!(matches!(action, ServiceAction::RunCommand(ServiceCommand::Install)));
    assert!(incompatible_service_upgrade_pending(&manager));
    let (flow, action) = manager.service_step(flow, ServiceEvent::CommandDone(Ok(())));
    assert!(matches!(action, ServiceAction::WaitForServiceIpc));
    let (flow, action) = manager.service_step(flow, ServiceEvent::IpcWaited(Ok(())));
    assert!(matches!(action, ServiceAction::QueryReinstallNeeded));
    let (flow, action) = manager.service_step(flow, ServiceEvent::ReinstallNeeded(true));
    assert!(matches!(action, ServiceAction::RunCommand(ServiceCommand::Reinstall)));
    assert_eq!(manager.status, ServiceStatus::NeedsReinstall);
    let (flow, _) = manager.service_step(flow, ServiceEvent::CommandDone(Ok(())));
    let (_, action) = manager.service_step(
        flow,
        ServiceEvent::IpcWaited(ipc_attempt(false, Ok(()))),
    );
    match action {
        ServiceAction::Finish(Err(error)) => assert_eq!(error.summary(), "IPC path not ready"),
        other => panic!("{other:?}"),
    }
    assert_eq!(
        manager.current(),
        Some(ServiceStatus::Unavailable("Waiting for service to be available".to_owned()))
    );
}

#[test]
fn abandoned_operation_is_over() {
    let mut manager = ServiceManager::new(Platform::Windows);
    manager.handle_service_status(ServiceStatus::InstallRequired);
    assert!(manager.operation_running);
    assert_eq!(manager.current(), None);
    manager.abandon_operation();
    assert!(!manager.operation_running);
    assert!(incompatible_service_upgrade_pending(&manager));
    assert!(manager.current().is_some());
}

#[test]
fn other_service_requests() {
    let mut manager = ServiceManager::new(Platform::Linux);
    let (flow, action) = manager.handle_service_status(ServiceStatus::UninstallRequired);
    assert!(matches!(action, ServiceAction::RunCommand(ServiceCommand::Uninstall)));
    let (_, action) = manager.service_step(flow, ServiceEvent::CommandDone(Ok(())));
    assert!(matches!(action, ServiceAction::UpdateMenu));
    assert_eq!(
        manager.current(),
        Some(ServiceStatus::Unavailable("Service Uninstalled".to_owned()))
    );

    let (_, action) =
        manager.handle_service_status(ServiceStatus::Unavailable("broken".to_owned()));
    match action {
        ServiceAction::Finish(Err(error)) => assert_eq!(error.summary(), "服务不可用: broken"),
        other => panic!("{other:?}"),
    }

    let (flow, action) = manager.handle_service_status(ServiceStatus::ForceReinstallRequired);
    assert!(matches!(action, ServiceAction::RunCommand(ServiceCommand::ForceReinstall)));
    assert!(!incompatible_service_upgrade_pending(&manager));
    let failed = run_service_command(ServiceCommand::ForceReinstall, Err(failure("panicked")));
    let (_, action) = manager.service_step(flow, ServiceEvent::CommandDone(failed));
    match action {
        ServiceAction::Finish(Err(error)) => assert_eq!(
            error.detail(),
            "force reinstall service task failed: panicked: cause"
        ),
        other => panic!("{other:?}"),
    }
    let inner = CoreError::Plain(Message::UninstallFailed { code: -1 });
    let failed = run_service_command(ServiceCommand::Uninstall, Ok(Err(inner)));
    assert_eq!(
        failed.unwrap_err().detail(),
        "uninstall service failed: failed to uninstall service with status -1"
    );

    assert!(manager.init(Err(failure("refused"))).is_err());
    assert_eq!(
        manager.current(),
        Some(ServiceStatus::Unavailable("服务连接失败: {e}".to_owned()))
    );
    assert_eq!(ServiceManager::config().max_retries, 20);
    assert_eq!(ServiceManager::config().retry_delay, 250);
    assert_eq!(ServiceManager::config().default_timeout, 150);
}

#[test]
fn probe_accepts_only_the_bundled_version() {
    let mut manager = ServiceManager::new(Platform::Windows);
    mark_incompatible_service_upgrade_pending(&mut manager);

    let (flow, action) = query_compatible_service_status("2.0".to_owned());
    assert!(matches!(action, ProbeAction::CheckEndpoint));
    let (_, action) = manager.probe_step(flow, ProbeEvent::Endpoint(false));
    match action {
        ProbeAction::Finish(Err(error)) => {
            assert_eq!(error.summary(), "Clash Verge Service IPC endpoint is not present")
        }
        other => panic!("{other:?}"),
    }

    let (flow, _) = query_compatible_service_status("2.0".to_owned());
    let (flow, _) = manager.probe_step(flow, ProbeEvent::Endpoint(true));
    let (_, action) =
        manager.probe_step(flow, ProbeEvent::Version(reply(0, "", Some("1.9".to_owned()))));
    match action {
        ProbeAction::Finish(Err(error)) => assert_eq!(
            error.summary(),
            "Clash Verge Service version 1.9 is incompatible with bundled protocol 2.0"
        ),
        other => panic!("{other:?}"),
    }
    assert!(incompatible_service_upgrade_pending(&manager));

    let (flow, _) = query_compatible_service_status("2.0".to_owned());
    let (flow, _) = manager.probe_step(flow, ProbeEvent::Endpoint(true));
    let (flow, action) =
        manager.probe_step(flow, ProbeEvent::Version(reply(0, "", Some("2.0".to_owned()))));
    assert!(matches!(action, ProbeAction::QueryStatus));
    let (_, action) =
        manager.probe_step(flow, ProbeEvent::Status(reply(0, "", Some(running(Some(3))))));
    match action {
        ProbeAction::Finish(Ok(status)) => {
            assert_eq!(service_core_running(Ok(status)).unwrap(), true)
        }
        other => panic!("{other:?}"),
    }
    assert!(!incompatible_service_upgrade_pending(&manager));

    assert_eq!(
        query_service_status(Err(failure("x"))).unwrap_err().detail(),
        "unable to query Clash Verge Service status: x: cause"
    );
    assert_eq!(
        query_service_status(reply(0, "", None)).unwrap_err().summary(),
        "service status response has no data"
    );
    assert_eq!(query_service_status(reply(2, "busy", None)).unwrap_err().summary(), "busy");
}

#[test]
fn maintenance_starts_a_stopped_service_once() {
    let timing = MaintenanceTiming { window: 1000, interval: 50 };
    let mut manager = ServiceManager::new(Platform::Windows);
    let (flow, action) =
        schedule_startup_service_maintenance(&mut manager, &timing, 10).unwrap();
    assert!(matches!(action, MaintenanceAction::CheckEndpoint));
    assert!(schedule_startup_service_maintenance(&mut manager, &timing, 11).is_none());

    let (flow, action) = manager.maintenance_step(&timing, flow, MaintenanceEvent::Endpoint(false));
    assert!(matches!(action, MaintenanceAction::QueryScm));
    let (flow, action) = manager.maintenance_step(
        &timing,
        flow,
        MaintenanceEvent::Scm(Ok(WindowsScmServiceState::Stopped)),
    );
    assert!(matches!(action, MaintenanceAction::RunCommand(ServiceCommand::StartInstalled)));
    assert!(incompatible_service_upgrade_pending(&manager));
    let (flow, _) = manager.maintenance_step(&timing, flow, MaintenanceEvent::CommandDone(Ok(())));
    let (flow, action) =
        manager.maintenance_step(&timing, flow, MaintenanceEvent::Clock { now: 1009 });
    assert!(matches!(action, MaintenanceAction::Sleep { interval: 50 }));
    let (flow, _) = manager.maintenance_step(&timing, flow, MaintenanceEvent::Slept);
    let (flow, _) = manager.maintenance_step(&timing, flow, MaintenanceEvent::Endpoint(true));
    let (flow, action) =
        manager.maintenance_step(&timing, flow, MaintenanceEvent::Connected(Err(failure("no"))));
    assert!(matches!(action, MaintenanceAction::QueryScm));
    let (flow, action) = manager.maintenance_step(
        &timing,
        flow,
        MaintenanceEvent::Scm(Ok(WindowsScmServiceState::Stopped)),
    );
    assert!(matches!(action, MaintenanceAction::ReadClock));
    let (_, action) =
        manager.maintenance_step(&timing, flow, MaintenanceEvent::Clock { now: 1010 });
    match action {
        MaintenanceAction::Finish(Err(error)) => assert_eq!(
            error.summary(),
            "service did not become reachable in the startup maintenance window"
        ),
        other => panic!("{other:?}"),
    }

    let mut manager = ServiceManager::new(Platform::Windows);
    let (flow, _) = schedule_startup_service_maintenance(&mut manager, &timing, 10).unwrap();
    let (flow, _) = manager.maintenance_step(&timing, flow, MaintenanceEvent::Endpoint(false));
    let unknown = CoreError::Plain(Message::Note(Note::ScmOpen));
    let (_, action) = manager.maintenance_step(&timing, flow, MaintenanceEvent::Scm(Err(unknown)));
    match action {
        MaintenanceAction::Finish(Err(error)) => assert_eq!(
            error.detail(),
            "unable to determine installed service state: \
             unable to open Windows Service Control Manager"
        ),
        other => panic!("{other:?}"),
    }
}

#[test]
fn detects_app_translocation_paths() {
    let path =
        "/private/var/folders/example/T/AppTranslocation/123/d/Clash Verge.app/Contents/MacOS/Clash Verge";

    assert!(is_macos_app_translocated(path));
    assert!(!is_macos_app_translocated("/Applications/AppTranslocation.app/Contents/MacOS/x"));
}

#[test]
fn extracts_app_bundle_name_from_executable_path() {
    let path = "/Applications/Clash Verge.app/Contents/MacOS/Clash Verge";

    assert_eq!(macos_app_bundle_name(path).as_deref(), Some("Clash Verge.app"));
    assert_eq!(macos_app_bundle_name("/a/B.APP/c/D.aPp/e").as_deref(), Some("D.aPp"));
    assert_eq!(macos_app_bundle_name("/a/.app/b"), None);
    assert_eq!(macos_app_bundle_name("/usr/bin"), None);
}

#[test]
fn resolves_existing_core_path_from_install_roots() {
    let root = "/tmp/clash-verge-service-path-test".to_owned();
    let core_path = format!("{root}/Clash Verge.app/Contents/MacOS/verge-mihomo");
    let roots = vec![root];

    let resolved =
        macos_core_path_in_install_roots("Clash Verge.app", "verge-mihomo", &roots, &vec![true]);
    assert_eq!(resolved, Some(core_path.clone()));
    assert_eq!(
        macos_core_path_candidates("Clash Verge.app", "verge-mihomo", &roots),
        vec![core_path]
    );
    assert_eq!(
        macos_core_path_in_install_roots("Clash Verge.app", "verge-mihomo", &roots, &vec![false]),
        None
    );
}

#[test]
fn core_path_of_a_translocated_application() {
    let exe = "/private/AppTranslocation/1/d/Clash Verge.app/Contents/MacOS/clash-verge";
    let path = |is_file: Vec<bool>| {
        service_core_path(
            Platform::MacOs,
            exe,
            "verge-mihomo",
            "/temporary".to_owned(),
            "\"/temporary\"".to_owned(),
            &is_file,
        )
    };
    assert_eq!(
        path(vec![false, true]).unwrap(),
        "/Applications/Utilities/Clash Verge.app/Contents/MacOS/verge-mihomo"
    );
    assert_eq!(
        path(vec![true, true]).unwrap(),
        "/Applications/Clash Verge.app/Contents/MacOS/verge-mihomo"
    );
    assert_eq!(
        path(vec![false, false]).unwrap_err().summary(),
        "macOS App Translocation detected; refusing to start service with temporary core path \
         \"/temporary\""
    );
    assert_eq!(
        service_core_path(
            Platform::Linux,
            exe,
            "verge-mihomo",
            "/kept".to_owned(),
            String::new(),
            &vec![],
        )
        .unwrap(),
        "/kept"
    );
    assert_eq!(stable_macos_core_path_for_translocated_app("/usr/bin/x", "c", &vec![true]), None);
    assert_eq!(core_binary_name(Platform::Windows, "verge-mihomo"), "verge-mihomo.exe");
    assert_eq!(core_binary_name(Platform::MacOs, "verge-mihomo"), "verge-mihomo");
    assert_eq!(join_path("/a/", "b"), "/a/b");
    assert_eq!(join_path("/a", "/b"), "/b");
    assert_eq!(join_path("", "b"), "b");
    assert_eq!(path_segments("/a//b"), vec!["", "a", "", "b"]);
}

#[test]
fn shell_texts_are_quoted() {
    assert_eq!(shell_single_quote("it's"), r"'it'\''s'");
    assert_eq!(shell_single_quote(""), "''");
    assert_eq!(shell_single_quote("a b; $c\n'"), "'a b; $c\n'\\'''");
    assert_eq!(escape_osascript_double_quoted_string(r#"a"b\c"#), r#"a\"b\\c"#);

    let cores = vec!["verge-mihomo".to_owned(), "verge-mihomo-alpha".to_owned()];
    assert_eq!(
        macos_force_stop_core_shell(&cores, Some("/tmp/it's.sock")),
        "/usr/bin/pkill -U root -x verge-mihomo 2>/dev/null || true; \
         /usr/bin/pkill -U root -x verge-mihomo-alpha 2>/dev/null || true; \
         /bin/rm -f '/tmp/it'\\''s.sock' 2>/dev/null || true"
    );
    assert_eq!(macos_force_stop_core_shell(&vec![], None), "");
    assert_eq!(
        macos_uninstall_command("/x/un install", "May I?", &vec![], None),
        "do shell script \"; sudo '/x/un install'\" with administrator privileges \
         with prompt \"May I?\""
    );
    let install = macos_install_command("/x/install", "May I?", 20);
    assert!(install.starts_with("do shell script \"for f in '/var/root/"));
    assert!(install.contains("[ -f \\\"$f\\\" ]"));
    assert!(install.ends_with(
        "done; sudo CLASH_VERGE_SERVICE_GID=20 '/x/install'\" with administrator privileges \
         with prompt \"May I?\""
    ));
    assert!(macos_cleanup_translocated_desired_state_shell().contains("grep -q AppTranslocation"));
}

fn located(exists: bool) -> InstallEvent {
    InstallEvent::Located(Ok(LocatedProgram { exists, quoted: "\"/bin/x\"".to_owned() }))
}

fn rights(privileged: bool, elevator: &str) -> InstallEvent {
    InstallEvent::Rights(Ok(Rights { privileged, elevator: elevator.to_owned() }))
}

fn output(success: bool, code: Option<i32>, stdout: &[u8], stderr: &[u8]) -> ProgramOutput {
    ProgramOutput { success, code, stdout: stdout.to_vec(), stderr: stderr.to_vec() }
}

#[test]
fn installer_is_run_with_the_rights_it_needs() {
    let method = |platform, event| {
        let (flow, _) = install_service();
        let (flow, _) = install_step(platform, flow, located(true));
        match install_step(platform, flow, event).1 {
            InstallAction::Run(method) => method,
            other => panic!("{other:?}"),
        }
    };
    assert_eq!(method(Platform::Windows, rights(false, "")), RunMethod::RunAs);
    assert_eq!(method(Platform::Windows, rights(true, "")), RunMethod::Direct);
    assert_eq!(method(Platform::Linux, rights(true, "pkexec")), RunMethod::Direct);
    assert_eq!(method(Platform::Linux, rights(false, "sudo")), RunMethod::Elevator);
    let (flow, _) = install_service();
    let (_, action) = install_step(Platform::MacOs, flow, located(true));
    assert!(matches!(action, InstallAction::Run(RunMethod::Osascript)));

    let (flow, _) = uninstall_service();
    let (flow, _) = install_step(Platform::Linux, flow, located(true));
    let (flow, _) = install_step(Platform::Linux, flow, rights(false, "/usr/bin/pkexec"));
    let refused = InstallEvent::Ran(Ok(output(false, Some(126), b"", b"")));
    let (flow, action) = install_step(Platform::Linux, flow, refused);
    assert!(matches!(action, InstallAction::Run(RunMethod::Sudo)));
    let refused = InstallEvent::Ran(Ok(output(false, None, b"", b"")));
    let (_, action) = install_step(Platform::Linux, flow, refused);
    match action {
        InstallAction::Finish(outcome) => assert_eq!(
            uninstall_result(outcome).unwrap_err().summary(),
            "failed to uninstall service with status -1"
        ),
        other => panic!("{other:?}"),
    }

    let (flow, _) = install_service();
    match install_step(Platform::Linux, flow, located(false)).1 {
        InstallAction::Finish(outcome) => assert_eq!(
            install_result(outcome).unwrap_err().summary(),
            "installer not found: \"/bin/x\""
        ),
        other => panic!("{other:?}"),
    }
    let (flow, _) = uninstall_service();
    match install_step(Platform::Linux, flow, located(false)).1 {
        InstallAction::Finish(outcome) => assert_eq!(
            uninstall_result(outcome).unwrap_err().summary(),
            "uninstaller not found: \"/bin/x\""
        ),
        other => panic!("{other:?}"),
    }
}

#[test]
fn program_output_explains_a_failure() {
    assert_eq!(check_output_error(&output(true, Some(0), b"a", b"b")), None);
    assert_eq!(
        check_output_error(&output(false, Some(3), b"out", b"err\xff")),
        Some((3, "err\u{fffd}".to_owned()))
    );
    assert_eq!(
        check_output_error(&output(false, None, b"out", b"")),
        Some((-1, "out".to_owned()))
    );
    assert_eq!(
        output_error(false, Some(1), String::new(), String::new()),
        Some((1, "Unknown error".to_owned()))
    );
    let failed = install_result(InstallOutcome::Ran(output(false, Some(3), b"", b"denied")));
    assert_eq!(
        failed.unwrap_err().summary(),
        "failed to install service code: 3, details: denied"
    );
    assert!(install_result(InstallOutcome::Ran(output(true, Some(0), b"", b"x"))).is_ok());
}

#[test]
fn reinstallation_goes_on_after_a_failed_uninstallation() {
    let (flow, action) = reinstall_service();
    assert!(matches!(action, ReinstallAction::Uninstall));
    let refused = CoreError::Plain(Message::UninstallFailed { code: 1 });
    let (flow, action) = reinstall_step(flow, Err(refused));
    assert!(matches!(action, ReinstallAction::Install));
    let refused = CoreError::Plain(Message::InstallFailed { code: 2, details: "d".to_owned() });
    let (_, action) = reinstall_step(flow, Err(refused));
    match action {
        ReinstallAction::Finish(Err(error)) => assert_eq!(
            error.summary(),
            "failed to install service: failed to install service code: 2, details: d"
        ),
        other => panic!("{other:?}"),
    }
}

#[test]
fn service_replies_are_read() {
    assert!(start_with_existing_service(reply(0, "", None)).is_ok());
    assert_eq!(start_with_existing_service(reply(1, "no", None)).unwrap_err().summary(), "no");
    assert_eq!(
        stop_core_by_service(Err(failure("x"))).unwrap_err().detail(),
        "无法连接到Clash Verge Service: x: cause"
    );
    assert_eq!(
        get_clash_logs_by_service(reply(0, "", Some(vec!["l".to_owned()]))).unwrap(),
        vec!["l".to_owned()]
    );
    assert!(get_clash_logs_by_service(reply(0, "", None)).unwrap().is_empty());
    assert!(is_service_available(Ok(()), Ok(())).is_ok());
    assert_eq!(is_service_available(Err(failure("e")), Ok(())).unwrap_err().summary(), "e");
    assert_eq!(is_service_available(Ok(()), Err(failure("c"))).unwrap_err().summary(), "c");

    let text = |s: &str| s.to_owned();
    let request =
        core_config(Ok(text("/core")), text("/run.yaml"), text("/ipc"), text("/home")).unwrap();
    assert_eq!(request.core_path, "/core");
    assert_eq!(request.config_path, "/run.yaml");
    assert_eq!(request.core_ipc_path, "/ipc");
    assert_eq!(request.config_dir, "/home");
    let none = Err(CoreError::Outside(failure("none")));
    assert!(core_config(none, text(""), text(""), text("")).is_err());

    let (flow, action) = run_core_by_service();
    assert!(matches!(action, RunCoreAction::Refresh));
    let (flow, action) = run_core_step(flow, Ok(()));
    assert!(matches!(action, RunCoreAction::Start));
    let (_, action) = run_core_step(flow, Ok(()));
    assert!(matches!(action, RunCoreAction::Finish(Ok(()))));

    let windows = ServiceManager::new(Platform::Windows);
    let linux = ServiceManager::new(Platform::Linux);
    assert_eq!(windows.list_windows_ics_connections(reply(0, "", Some(vec![1, 2]))).unwrap(), vec![1, 2]);
    assert_eq!(
        windows
            .list_windows_ics_connections::<u8>(Err(failure("l")))
            .unwrap_err()
            .summary(),
        "unable to list Windows ICS connections"
    );
    assert_eq!(
        linux.list_windows_ics_connections(reply(0, "", Some(vec![1]))).unwrap_err().summary(),
        "Windows ICS is only available on Windows"
    );
    assert_eq!(windows.repair_windows_ics(reply(0, "", Some(7))).unwrap(), 7);
    assert_eq!(
        windows.repair_windows_ics::<u8>(reply(0, "", None)).unwrap_err().summary(),
        "Windows ICS repair returned no result"
    );
    assert_eq!(
        windows.repair_windows_ics::<u8>(Err(failure("r"))).unwrap_err().summary(),
        "unable to repair Windows ICS"
    );
    assert_eq!(
        linux.repair_windows_ics(reply(0, "", Some(7))).unwrap_err().summary(),
        "Windows ICS is only available on Windows"
    );
}
