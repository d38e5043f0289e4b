use oko_monitor::admin::parse_request;
use oko_monitor::audit::Level;
use oko_monitor::db::Db;
use oko_monitor::health::{
    beat_event, heartbeat_signal, on_admin_event, on_admin_line, on_health_event,
    AdminEvent, HealthEvent, PipePhase,
};
use oko_monitor::network::{Edition, NetworkState};
use oko_monitor::parser::{parse_heartbeat, HeartbeatResult};
use oko_monitor::translate::translate_event;
use oko_monitor::watchdog::{
    format_event_line, format_log_line, next_restart_call, on_spawn, on_watch_event,
    restart_event, turn_message, RestartCall, RestartGate, SpawnResult, WatchEvent, WatchPhase, WatchdogTurn, LISTEN_TIMEOUT_MS,
};

#[test]
fn heartbeats_are_heard() {
    let signal = heartbeat_signal(Edition::Networked, "2026-07-03 12:00:00.000", NetworkState::Red);
    assert_eq!(signal, "HEARTBEAT 2026-07-03 12:00:00.000 STATUS:RED\n");
    assert_eq!(
        parse_heartbeat(&signal),
        HeartbeatResult::Beat("HEARTBEAT 2026-07-03 12:00:00.000 STATUS:RED".to_string())
    );
    let plain =
        heartbeat_signal(Edition::Plain, "2026-07-03 12:00:00.000", NetworkState::Red);
    assert_eq!(plain, "HEARTBEAT 2026-07-03 12:00:00.000\n");
    assert!(matches!(parse_heartbeat(&plain), HeartbeatResult::Beat(_)));
    assert!(matches!(parse_request(&signal), oko_monitor::admin::AdminRequest::Unknown));
}

#[test]
fn heartbeats_are_logged() {
    let active = beat_event(false, "12:00");
    assert_eq!(active.level, Level::Info);
    assert_eq!(active.category, "heartbeat");
    assert_eq!(active.message, "Heartbeat sent: 12:00");
    let suspended = beat_event(true, "12:00");
    assert_eq!(suspended.category, "system_status");
    assert_eq!(suspended.message, "System is suspended. Blocking logic inactive.");
}

#[test]
fn the_health_pipe_goes_its_way() {
    let r = on_health_event(Edition::Networked, &HealthEvent::CreateFailed {
        attributes: false,
        reason: "busy".to_string(),
    });
    assert_eq!(r.events.len(), 1);
    assert_eq!(r.events[0].category, "ipc_error");
    assert_eq!(r.events[0].message, "Error creating secure named pipe: busy");
    assert_eq!((r.pause_ms, r.next), (1000, PipePhase::Create));
    let r = on_health_event(Edition::Networked, &HealthEvent::CreateFailed {
        attributes: true,
        reason: "no rights".to_string(),
    });
    assert_eq!(r.events[0].category, "security_error");
    assert_eq!(r.events[0].message, "Error generating security attributes: no rights");
    assert_eq!(r.events[1].message, "Error creating secure named pipe: no rights");
    let r = on_health_event(Edition::Networked, &HealthEvent::Created);
    assert!(r.events.is_empty());
    assert_eq!((r.pause_ms, r.next), (0, PipePhase::Connect));
    let r = on_health_event(Edition::Networked, &HealthEvent::ConnectFailed("gone".to_string()));
    assert_eq!(r.events[0].message, "Watchdog connection failed");
    assert_eq!((r.pause_ms, r.next), (1000, PipePhase::Create));
    let r = on_health_event(Edition::Plain, &HealthEvent::ConnectFailed("gone".to_string()));
    assert_eq!(r.events[0].message, "Watchdog connection failed: gone");
    let r = on_health_event(Edition::Networked, &HealthEvent::Connected);
    assert_eq!(r.events[0].message, "Watchdog connected via Secure Named Pipe.");
    assert_eq!((r.pause_ms, r.next), (0, PipePhase::Serve));
    let r = on_health_event(Edition::Networked, &HealthEvent::Beaten { suspended: false, timestamp: "t".to_string() });
    assert_eq!(r.events[0].message, "Heartbeat sent: t");
    assert_eq!((r.pause_ms, r.next), (500, PipePhase::Serve));
    assert!(r.pause_ms < LISTEN_TIMEOUT_MS);
    assert_eq!(LISTEN_TIMEOUT_MS, 2000);
    let r = on_health_event(Edition::Networked, &HealthEvent::BeatFailed);
    assert_eq!(r.events[0].level, Level::Warn);
    assert_eq!((r.pause_ms, r.next), (0, PipePhase::Create));
}

#[test]
fn the_admin_pipe_goes_its_way() {
    let r = on_admin_event(&AdminEvent::CreateFailed {
        attributes: true,
        reason: "busy".to_string(),
    });
    assert_eq!(
        r.events[0].message,
        "Failed to generate security attributes for Admin Pipe: busy"
    );
    assert_eq!(
        r.events[1].message,
        "Failed to create Admin Named Pipe: busy. Retrying in 2 seconds..."
    );
    assert_eq!(r.events[1].level, Level::Warn);
    assert_eq!((r.pause_ms, r.next), (2000, PipePhase::Create));
    for (event, pause, next) in [
        (AdminEvent::Created, 0, PipePhase::Connect),
        (AdminEvent::ConnectFailed, 1000, PipePhase::Create),
        (AdminEvent::Connected, 0, PipePhase::Serve),
        (AdminEvent::Silent, 500, PipePhase::Create),
        (AdminEvent::Served, 500, PipePhase::Create),
    ] {
        let r = on_admin_event(&event);
        assert!(r.events.is_empty());
        assert_eq!((r.pause_ms, r.next), (pause, next));
    }
    let r = on_admin_event(&AdminEvent::ReadFailed("broken".to_string()));
    assert_eq!(r.events[0].message, "Error reading from Admin Named Pipe: broken");
    assert_eq!((r.pause_ms, r.next), (500, PipePhase::Create));
}

#[test]
fn a_silent_client_gets_no_answer() {
    let mut db = Db::new_in_memory().expect("no database");
    assert!(on_admin_line(Edition::Plain, &mut db, false, 0, "").is_none());
    let r = on_admin_line(Edition::Plain, &mut db, false, 7, "STATUS\n").expect("no answer");
    assert_eq!(r.reply, "STATE: Active\n");
}

#[test]
fn log_lines() {
    assert_eq!(format_log_line("12:00", "hello"), "[12:00] hello\n");
    let event = restart_event();
    let line = format_event_line(
        "2026-07-03T12:00:00.000Z",
        event.level.as_text(),
        &event.category,
        &event.message,
    );
    assert!(line.ends_with("}}\n"));
    let value: serde_json::Value = serde_json::from_str(&line).expect("no JSON");
    assert_eq!(value["timestamp"], "2026-07-03T12:00:00.000Z");
    assert_eq!(value["level"], "WARN");
    assert_eq!(value["fields"]["category"], "watchdog_event");
    assert_eq!(
        value["fields"]["message"],
        "Watchdog triggered: CoreService stopped responding. Attempting restart..."
    );
    assert_eq!(
        translate_event(&event.category, &event.message),
        (
            "Контроль".to_string(),
            "Обнаружено зависание Ядра! Выполняется экстренный перезапуск...".to_string()
        )
    );
}

#[test]
fn the_watchdog_listens() {
    let r = on_watch_event(&WatchEvent::Connected);
    assert_eq!(r.message, "Successfully connected to CoreService named pipe.");
    assert_eq!((r.restart, r.pause_ms, r.next), (false, 0, WatchPhase::Listen));
    let r = on_watch_event(&WatchEvent::Line("HEARTBEAT now\n".to_string()));
    assert_eq!(r.message, "Watchdog verified: HEARTBEAT now");
    assert_eq!((r.restart, r.pause_ms, r.next), (false, 0, WatchPhase::Listen));
    let r = on_watch_event(&WatchEvent::Line(" noise \n".to_string()));
    assert_eq!(r.message, "Received unexpected message from pipe: noise");
    assert_eq!((r.restart, r.pause_ms, r.next), (false, 0, WatchPhase::Listen));
}

#[test]
fn the_watchdog_loses_the_service() {
    for (event, message) in [
        (
            WatchEvent::ConnectFailed("not found".to_string()),
            "Failed to connect to named pipe: not found. CoreService may be stopped or crashed.",
        ),
        (
            WatchEvent::Closed,
            "Connection to CoreService named pipe closed (EOF). Service may have terminated.",
        ),
        (
            WatchEvent::ReadFailed("broken".to_string()),
            "Error reading from named pipe: broken. Connection broken.",
        ),
        (
            WatchEvent::TimedOut,
            "TIMEOUT: No heartbeat received from CoreService for 2 seconds. Service is unresponsive.",
        ),
    ] {
        let r = on_watch_event(&event);
        assert_eq!(r.message, message);
        assert_eq!((r.restart, r.pause_ms, r.next), (true, 2000, WatchPhase::Connect));
    }
}

#[test]
fn restarts_are_eight_seconds_apart() {
    let mut gate = RestartGate::new();
    assert_eq!(gate.last(), 0);
    assert!(!gate.permit(7));
    assert!(gate.permit(1000));
    assert_eq!(gate.last(), 1000);
    assert!(!gate.permit(1007));
    assert_eq!(gate.last(), 1000);
    assert!(gate.permit(1008));
    assert!(!gate.permit(1015));
    assert_eq!(gate.last(), 1008);
}

#[test]
fn a_clock_that_went_back_does_not_stop_restarts() {
    let mut gate = RestartGate::new();
    assert!(gate.permit(1000));
    assert!(gate.permit(999));
    assert_eq!(gate.last(), 999);
    assert!(!gate.permit(1006));
    assert!(gate.permit(u64::MAX));
    assert!(!gate.permit(6));
    assert!(gate.permit(7));
}

#[test]
fn starting_the_executable_is_logged() {
    assert_eq!(on_spawn(&SpawnResult::NoPath), None);
    assert_eq!(
        on_spawn(&SpawnResult::Missing),
        Some("core-service.exe not found in watchdog directory.".to_string())
    );
    assert_eq!(
        on_spawn(&SpawnResult::Spawned),
        Some("CoreService spawned directly from executable.".to_string())
    );
    assert_eq!(
        on_spawn(&SpawnResult::Failed("no".to_string())),
        Some("Failed to spawn core-service.exe: no".to_string())
    );
}

#[test]
fn the_watchdog_logs_its_course() {
    for (turn, text) in [
        (WatchdogTurn::Started, "Watchdog service started successfully."),
        (WatchdogTurn::ShutDown, "Watchdog service shutdown signal received."),
        (WatchdogTurn::Unregistered, "Failed to register service control handler."),
        (WatchdogTurn::NotDispatched(5), "Failed to start service control dispatcher: 5."),
        (WatchdogTurn::Failed("why".to_string()), "Watchdog Service error: why"),
    ] {
        assert_eq!(turn_message(&turn), text);
    }
}

#[test]
fn a_restart_goes_step_by_step() {
    for (started, expected) in [
        (
            true,
            vec![RestartCall::Announce, RestartCall::KillCore, RestartCall::StartService],
        ),
        (
            false,
            vec![
                RestartCall::Announce,
                RestartCall::KillCore,
                RestartCall::StartService,
                RestartCall::SpawnExecutable,
            ],
        ),
    ] {
        let mut calls = vec![];
        let mut next = Some(RestartCall::Announce);
        while let Some(call) = next {
            calls.push(call);
            next = next_restart_call(call, started);
        }
        assert_eq!(calls, expected);
    }
}
