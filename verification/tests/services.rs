use oko_monitor::audit::Level;
use oko_monitor::scm::{service_state_name, ScmCall, ScmRun, Task, TaskEnd};
use oko_monitor::service;
use oko_monitor::service::{
    core_command, course_event, data_path, describe_access_failure, on_dispatcher_failure,
    on_start, quoted_path, recovery_plan, watchdog_command, AccessFailure, CoreCommand, Course,
    ServiceStatusBoard, StartCall, StartEvent, WatchdogCommand,
};
use windows_sys::Win32::Foundation as f;
use windows_sys::Win32::System::Services as s;

fn args(words: &[&str]) -> Vec<String> {
    words.iter().map(|w| w.to_string()).collect()
}

/// Runs a task against answers by call; returns the calls and what was told.
fn play(task: Task, answer: fn(ScmCall) -> Result<u32, u32>) -> (Vec<ScmCall>, Vec<String>, ScmRun) {
    let mut run = ScmRun::begin(task);
    let mut calls = vec![];
    let mut told = vec![];
    while let Some(call) = run.next_call() {
        calls.push(call);
        if let Some(line) = run.advance(answer(call)) {
            told.push(line);
        }
    }
    (calls, told, run)
}

#[test]
fn numbers_are_those_of_windows() {
    assert_eq!(service::SERVICE_STOPPED, s::SERVICE_STOPPED);
    assert_eq!(service::SERVICE_START_PENDING, s::SERVICE_START_PENDING);
    assert_eq!(service::SERVICE_STOP_PENDING, s::SERVICE_STOP_PENDING);
    assert_eq!(service::SERVICE_RUNNING, s::SERVICE_RUNNING);
    assert_eq!(service::SERVICE_PAUSED, s::SERVICE_PAUSED);
    assert_eq!(service::SERVICE_ACCEPT_STOP, s::SERVICE_ACCEPT_STOP);
    assert_eq!(service::SERVICE_ACCEPT_SHUTDOWN, s::SERVICE_ACCEPT_SHUTDOWN);
    assert_eq!(
        service::ACCEPT_STOP_AND_SHUTDOWN,
        s::SERVICE_ACCEPT_STOP | s::SERVICE_ACCEPT_SHUTDOWN
    );
    assert_eq!(service::SERVICE_CONTROL_STOP, s::SERVICE_CONTROL_STOP);
    assert_eq!(service::SERVICE_CONTROL_INTERROGATE, s::SERVICE_CONTROL_INTERROGATE);
    assert_eq!(service::SERVICE_CONTROL_SHUTDOWN, s::SERVICE_CONTROL_SHUTDOWN);
    assert_eq!(service::NO_ERROR, f::NO_ERROR);
    assert_eq!(service::ERROR_CALL_NOT_IMPLEMENTED, f::ERROR_CALL_NOT_IMPLEMENTED);
    assert_eq!(
        service::ERROR_FAILED_SERVICE_CONTROLLER_CONNECT,
        f::ERROR_FAILED_SERVICE_CONTROLLER_CONNECT
    );
    assert_eq!(service::ERROR_PROCESS_ABORTED, f::ERROR_PROCESS_ABORTED);
    assert_eq!(service::ERROR_SERVICE_EXISTS, f::ERROR_SERVICE_EXISTS);
}

#[test]
fn nothing_is_reported_before_registration() {
    let mut board = ServiceStatusBoard::new();
    assert!(board.starting().is_none());
    assert!(board.running().is_none());
    assert!(board.ended(true).is_none());
    let reply = board.on_control(service::SERVICE_CONTROL_STOP);
    assert!(reply.report.is_none());
    assert!(reply.shut_down);
    assert_eq!(reply.code, 0);
}

#[test]
fn a_service_reports_its_course() {
    let mut board = ServiceStatusBoard::new();
    board.register();
    let starting = board.starting().expect("no report");
    assert_eq!((starting.state, starting.check_point, starting.wait_hint), (2, 1, 3000));
    assert_eq!(starting.accepted, 0);
    let running = board.running().expect("no report");
    assert_eq!((running.state, running.accepted), (4, 5));
    let reply = board.on_control(service::SERVICE_CONTROL_SHUTDOWN);
    let stopping = reply.report.expect("no report");
    assert_eq!((stopping.state, stopping.check_point, stopping.wait_hint), (3, 1, 3000));
    assert_eq!(stopping.accepted, 0);
    let stopped = board.ended(false).expect("no report");
    assert_eq!((stopped.state, stopped.exit_code), (1, 0));
    let failed = board.ended(true).expect("no report");
    assert_eq!((failed.state, failed.exit_code), (1, 1067));
}

#[test]
fn other_controls() {
    let mut board = ServiceStatusBoard::new();
    board.register();
    let ask = board.on_control(service::SERVICE_CONTROL_INTERROGATE);
    assert_eq!((ask.report, ask.shut_down, ask.code), (None, false, 0));
    let pause = board.on_control(2);
    assert_eq!((pause.report, pause.shut_down, pause.code), (None, false, 120));
}

#[test]
fn a_program_without_a_manager_runs_by_itself() {
    assert_eq!(on_dispatcher_failure(1063), None);
    assert_eq!(
        on_dispatcher_failure(5),
        Some("Failed to start service: 5".to_string())
    );
}

#[test]
fn core_command_lines() {
    assert!(matches!(core_command(&args(&[])), CoreCommand::Run));
    assert!(matches!(core_command(&args(&["core"])), CoreCommand::Run));
    assert!(matches!(core_command(&args(&["core", "--install"])), CoreCommand::Install));
    assert!(matches!(core_command(&args(&["core", "--uninstall", "x"])), CoreCommand::Uninstall));
    assert!(matches!(
        core_command(&args(&["core", "--configure-recovery"])),
        CoreCommand::ConfigureRecovery
    ));
    match core_command(&args(&["core", "--set-password", "p w"])) {
        CoreCommand::SetPassword(p) => assert_eq!(p, "p w"),
        other => panic!("{:?}", other),
    }
    match core_command(&args(&["core", "--set-password"])) {
        CoreCommand::Usage(t) => {
            assert_eq!(t, "Usage: core-service.exe --set-password <password>")
        }
        other => panic!("{:?}", other),
    }
    match core_command(&args(&["core", "--help"])) {
        CoreCommand::Usage(t) => assert_eq!(
            t,
            "Usage: core-service.exe [--install | --uninstall | --configure-recovery | --set-password <password>]"
        ),
        other => panic!("{:?}", other),
    }
}

#[test]
fn watchdog_command_lines() {
    assert_eq!(watchdog_command(&args(&["watchdog"])), WatchdogCommand::Run);
    assert_eq!(watchdog_command(&args(&["watchdog", "--install"])), WatchdogCommand::Install);
    assert_eq!(watchdog_command(&args(&["watchdog", "--uninstall"])), WatchdogCommand::Uninstall);
    assert_eq!(watchdog_command(&args(&["watchdog", "install"])), WatchdogCommand::Usage);
    assert_eq!(
        service::WATCHDOG_USAGE,
        "Usage: watchdog-utility.exe [--install | --uninstall]"
    );
}

#[test]
fn files_and_access() {
    assert_eq!(
        data_path("events.jsonl"),
        "C:\\ProgramData\\MonitoringControl\\events.jsonl"
    );
    assert_eq!(quoted_path("C:\\a b.exe"), "\"C:\\a b.exe\"");
    assert_eq!(
        describe_access_failure(AccessFailure::Descriptor, 1336),
        "Failed to convert SDDL to security descriptor: 1336"
    );
    assert_eq!(
        describe_access_failure(AccessFailure::Directory, 5),
        "Failed to set directory security descriptor: 5"
    );
    assert_eq!(service::PIPE_SDDL, "D:(A;;GA;;;SY)(A;;GA;;;BA)");
    assert_eq!(service::DIRECTORY_SDDL, "D:(A;OICI;GA;;;SY)(A;OICI;GA;;;BA)");
    let plan = recovery_plan();
    assert_eq!(plan.reset_period_secs, 86400);
    assert_eq!(plan.restart_delays_ms, vec![5000, 10000, 20000]);
}

#[test]
fn the_course_is_logged() {
    let started = course_event(&Course::Started);
    assert_eq!(started.level, Level::Info);
    assert_eq!(started.level.as_text(), "INFO");
    assert_eq!(started.category, "process_lifecycle");
    assert_eq!(started.message, "CoreService started successfully.");
    let down = course_event(&Course::ShutDown);
    assert_eq!(down.message, "CoreService shutdown signal received.");
    let database = course_event(&Course::DatabaseFailed("locked".to_string()));
    assert_eq!(database.level.as_text(), "ERROR");
    assert_eq!(database.category, "database_error");
    assert_eq!(database.message, "Failed to initialize database: locked");
    let failed = course_event(&Course::Failed("why".to_string()));
    assert_eq!(failed.category, "service_error");
    assert_eq!(failed.message, "Service failed: why");
}

#[test]
fn installing_in_order() {
    let (calls, told, run) = play(Task::Install, |_| Ok(1));
    assert_eq!(
        calls,
        vec![
            ScmCall::OpenManager,
            ScmCall::CreateService,
            ScmCall::SetRecovery,
            ScmCall::CloseService,
            ScmCall::CloseManager
        ]
    );
    assert_eq!(
        told,
        vec![
            "Service installed successfully.",
            "Service recovery options configured successfully (Auto-Restart on failure)."
        ]
    );
    assert!(matches!(run.outcome(), TaskEnd::Done));
}

#[test]
fn installing_goes_on_without_recovery_options() {
    let (calls, told, run) = play(Task::Install, |call| {
        if call == ScmCall::SetRecovery {
            Err(87)
        } else {
            Ok(1)
        }
    });
    assert_eq!(calls.len(), 5);
    assert_eq!(
        told[1],
        "Warning: failed to configure service recovery options: Failed to set failure actions: 87"
    );
    assert!(matches!(run.outcome(), TaskEnd::Done));
}

#[test]
fn failures_close_what_was_opened() {
    let (calls, _, run) = play(Task::Install, |call| {
        if call == ScmCall::CreateService {
            Err(1073)
        } else {
            Ok(1)
        }
    });
    assert_eq!(
        calls,
        vec![ScmCall::OpenManager, ScmCall::CreateService, ScmCall::CloseManager]
    );
    match run.outcome() {
        TaskEnd::Failed(e) => assert_eq!(e, "Service already exists."),
        other => panic!("{:?}", other),
    }
    let (calls, told, run) = play(Task::Uninstall, |call| {
        if call == ScmCall::DeleteService {
            Err(1072)
        } else {
            Ok(1)
        }
    });
    assert_eq!(
        calls,
        vec![
            ScmCall::OpenManager,
            ScmCall::OpenService,
            ScmCall::StopService,
            ScmCall::DeleteService,
            ScmCall::CloseService,
            ScmCall::CloseManager
        ]
    );
    assert!(told.is_empty());
    match run.outcome() {
        TaskEnd::Failed(e) => assert_eq!(e, "Failed to delete service: 1072"),
        other => panic!("{:?}", other),
    }
}

#[test]
fn errors_of_the_tasks() {
    for (task, at, code, text) in [
        (Task::Install, ScmCall::OpenManager, 5, "Failed to open SC Manager: 5"),
        (Task::Install, ScmCall::CreateService, 1057, "Failed to create service: 1057"),
        (Task::Uninstall, ScmCall::OpenService, 1060, "Service is not installed."),
        (Task::ConfigureRecovery, ScmCall::OpenManager, 5, "Failed to open SC Manager: 5"),
        (Task::ConfigureRecovery, ScmCall::OpenService, 1060, "Failed to open service: 1060"),
        (Task::ConfigureRecovery, ScmCall::SetRecovery, 87, "Failed to set failure actions: 87"),
    ] {
        let mut run = ScmRun::begin(task);
        while let Some(call) = run.next_call() {
            let _ = run.advance(if call == at { Err(code) } else { Ok(1) });
        }
        match run.outcome() {
            TaskEnd::Failed(e) => assert_eq!(e, text),
            other => panic!("{:?}", other),
        }
    }
}

#[test]
fn uninstalling_even_if_it_cannot_be_stopped() {
    let (_, told, run) = play(Task::Uninstall, |call| {
        if call == ScmCall::StopService {
            Err(1062)
        } else {
            Ok(1)
        }
    });
    assert_eq!(told, vec!["Service deleted successfully."]);
    assert!(matches!(run.outcome(), TaskEnd::Done));
}

#[test]
fn configuring_recovery() {
    let (calls, told, run) = play(Task::ConfigureRecovery, |_| Ok(1));
    assert_eq!(calls.len(), 5);
    assert_eq!(told, vec!["Service recovery options configured successfully."]);
    assert!(matches!(run.outcome(), TaskEnd::Done));
}

#[test]
fn starting_the_core_service() {
    let (calls, told, run) = play(Task::Start, |_| Ok(1));
    assert_eq!(
        calls,
        vec![
            ScmCall::OpenManager,
            ScmCall::OpenService,
            ScmCall::StartService,
            ScmCall::CloseService,
            ScmCall::CloseManager
        ]
    );
    assert_eq!(
        told,
        vec!["CoreService successfully restarted via Service Control Manager."]
    );
    assert!(matches!(run.outcome(), TaskEnd::Done));
    let (_, told, run) = play(Task::Start, |call| {
        if call == ScmCall::StartService {
            Err(1056)
        } else {
            Ok(1)
        }
    });
    assert!(told.is_empty());
    assert!(matches!(run.outcome(), TaskEnd::NotStarted));
}

#[test]
fn asking_for_a_state() {
    for (at, text) in [
        (ScmCall::OpenManager, "UNKNOWN (SCM Error)"),
        (ScmCall::OpenService, "NOT INSTALLED"),
        (ScmCall::QueryStatus, "UNKNOWN"),
    ] {
        let mut run = ScmRun::begin(Task::Query);
        while let Some(call) = run.next_call() {
            let _ = run.advance(if call == at { Err(6) } else { Ok(4) });
        }
        match run.outcome() {
            TaskEnd::Status(t) => assert_eq!(t, text),
            other => panic!("{:?}", other),
        }
    }
    let (_, _, run) = play(Task::Query, |_| Ok(4));
    match run.outcome() {
        TaskEnd::Status(t) => assert_eq!(t, "RUNNING"),
        other => panic!("{:?}", other),
    }
}

#[test]
fn names_of_states() {
    for (state, name) in [
        (4, "RUNNING"),
        (1, "STOPPED"),
        (7, "PAUSED"),
        (2, "STARTING"),
        (3, "STOPPING"),
        (5, "STATE (5)"),
        (4294967295, "STATE (4294967295)"),
    ] {
        assert_eq!(service_state_name(state), name);
    }
}

#[test]
fn the_core_service_starts_step_by_step() {
    for (event, call, message) in [
        (StartEvent::LoggerFailed, StartCall::Fail, None),
        (StartEvent::LoggerReady, StartCall::OpenDatabase, None),
        (
            StartEvent::DatabaseFailed("locked".to_string()),
            StartCall::End,
            Some("Failed to initialize database: locked"),
        ),
        (
            StartEvent::DatabaseReady,
            StartCall::ServeAndReport,
            Some("CoreService started successfully."),
        ),
        (
            StartEvent::ShutDown,
            StartCall::End,
            Some("CoreService shutdown signal received."),
        ),
    ] {
        let (next, entry) = on_start(&event);
        assert_eq!(next, call);
        assert_eq!(entry.map(|e| e.message), message.map(|m| m.to_string()));
    }
}
