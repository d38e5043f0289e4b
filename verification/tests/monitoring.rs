use chrono::{DateTime, FixedOffset};
use oko_monitor::admin::{parse_request, AdminRequest};
use oko_monitor::health::beat_event;
use oko_monitor::layout::{centered_rect, Area};
use oko_monitor::monitor::{
    live_status, AppState, Command, InputMode, Key, KeyAction, TracingEvent, TracingFields,
    FEEDBACK_NANOS, MAX_EVENTS,
};
use oko_monitor::screen::{
    event_row, mask, prompt, size_text, status_bar, Colour, MAX_EXACT_SIZE,
};
use oko_monitor::timestamps::{clock_text, format_timestamp, parse_timestamp};
use oko_monitor::translate::{translate_event, translate_status};

fn event(level: &str, category: Option<&str>, message: Option<&str>) -> TracingEvent {
    TracingEvent {
        timestamp: "2026-07-03T12:34:56.789Z".to_string(),
        level: level.to_string(),
        fields: TracingFields {
            category: category.map(|c| c.to_string()),
            message: message.map(|m| m.to_string()),
        },
    }
}

fn numbered(from: usize, to: usize) -> Vec<TracingEvent> {
    (from..to).map(|i| event("INFO", Some("ipc"), Some(&i.to_string()))).collect()
}

fn messages(state: &AppState) -> Vec<String> {
    state.events().iter().map(|e| e.fields.message.clone().unwrap_or_default()).collect()
}

fn type_in(state: &mut AppState, text: &str) {
    for c in text.chars() {
        assert!(matches!(state.on_key(Key::Char(c)), KeyAction::Stay));
    }
}

#[test]
fn a_new_monitor_knows_nothing() {
    let state = AppState::new("log");
    assert_eq!(state.log_path(), "log");
    assert_eq!(state.core_status(), "UNKNOWN");
    assert_eq!(state.watchdog_status(), "UNKNOWN");
    assert_eq!(state.suspended_status(), "UNKNOWN");
    assert_eq!(state.input_mode(), InputMode::Normal);
    assert_eq!(state.file_offset(), 0);
    assert!(state.events().is_empty());
    assert!(state.feedback_message().is_none());
    assert!(prompt(&state).is_none());
}

#[test]
fn the_last_events_are_held() {
    let mut state = AppState::new("log");
    assert_eq!(state.begin_reading(100), 0);
    state.read_new_logs(100, numbered(0, 45), true);
    assert_eq!(state.file_offset(), 100);
    assert_eq!(state.begin_reading(200), 100);
    state.read_new_logs(200, numbered(45, 60), true);
    assert_eq!(messages(&state), (10..60).map(|i| i.to_string()).collect::<Vec<_>>());
    assert_eq!(state.events().len(), MAX_EVENTS);
    let mut at_once = AppState::new("log");
    at_once.begin_reading(200);
    at_once.read_new_logs(200, numbered(0, 60), true);
    assert_eq!(messages(&at_once), messages(&state));
}

#[test]
fn a_shorter_log_is_read_anew() {
    let mut state = AppState::new("log");
    state.begin_reading(100);
    state.read_new_logs(100, numbered(0, 3), true);
    assert_eq!(state.begin_reading(99), 0);
    assert!(state.events().is_empty());
    state.read_new_logs(99, numbered(7, 8), true);
    assert_eq!(messages(&state), vec!["7"]);
    assert_eq!(state.file_offset(), 99);
}

#[test]
fn a_broken_read_keeps_what_it_got() {
    let mut state = AppState::new("log");
    state.begin_reading(100);
    state.read_new_logs(100, numbered(0, 60), false);
    assert_eq!(state.events().len(), 60);
    assert_eq!(state.file_offset(), 0);
}

#[test]
fn the_live_state_is_in_capitals() {
    assert_eq!(live_status("STATE: Suspended\n"), Ok("SUSPENDED".to_string()));
    assert_eq!(live_status(" STATE: Active \n"), Ok("ACTIVE".to_string()));
    assert_eq!(live_status("STATE: straße"), Ok("STRASSE".to_string()));
    assert_eq!(live_status("OK\n"), Err("Invalid status response".to_string()));
}

#[test]
fn the_state_of_the_protection() {
    let mut state = AppState::new("log");
    state.update_system_state("RUNNING", "STOPPED", Some("STATE: Suspended\n"));
    assert_eq!(state.core_status(), "RUNNING");
    assert_eq!(state.watchdog_status(), "STOPPED");
    assert_eq!(state.suspended_status(), "SUSPENDED");
    state.update_system_state("RUNNING", "STOPPED", None);
    assert_eq!(state.suspended_status(), "ACTIVE");
    let beat = beat_event(true, "now");
    let e = event(beat.level.as_text(), Some(&beat.category), Some(&beat.message));
    state.begin_reading(10);
    state.read_new_logs(10, vec![e], true);
    state.update_system_state("RUNNING", "STOPPED", None);
    assert_eq!(state.suspended_status(), "SUSPENDED");
    state.update_system_state("RUNNING", "STOPPED", Some("garbage"));
    assert_eq!(state.suspended_status(), "SUSPENDED");
    state.update_system_state("RUNNING", "STOPPED", Some("STATE: Active\n"));
    assert_eq!(state.suspended_status(), "ACTIVE");
}

#[test]
fn only_certain_events_tell_a_suspension() {
    for (category, message, suspended) in [
        (Some("system_override"), Some("Suspended by hand"), true),
        (Some("system_status"), Some("it is suspended"), true),
        (Some("system_override"), Some("System SUSPENDED via Admin pipe."), false),
        (Some("ipc"), Some("suspended"), false),
        (Some("system_status"), None, false),
        (None, Some("suspended"), false),
    ] {
        let mut state = AppState::new("log");
        state.begin_reading(1);
        state.read_new_logs(1, vec![event("INFO", category, message)], true);
        state.update_system_state("", "", None);
        assert_eq!(state.suspended_status() == "SUSPENDED", suspended);
    }
}

#[test]
fn suspending_by_keys() {
    let mut state = AppState::new("log");
    assert!(matches!(state.on_key(Key::Char('1')), KeyAction::Stay));
    assert_eq!(state.input_mode(), InputMode::PromptingSuspend);
    type_in(&mut state, "pwq1");
    state.on_key(Key::Backspace);
    let p = prompt(&state).expect("no prompt");
    assert_eq!(p.title, " ДЕЙСТВИЕ: ПРИОСТАНОВКА ЗАЩИТЫ ");
    assert_eq!(p.label, "Введите Мастер-Пароль для подтверждения приостановки защиты:");
    assert_eq!(p.input, "***");
    match state.on_key(Key::Enter) {
        KeyAction::Send(command) => {
            assert_eq!(command.line(), "SUSPEND pwq\n");
            match parse_request(&command.line()) {
                AdminRequest::Suspend(p) => assert_eq!(p, "pwq"),
                other => panic!("{:?}", other),
            }
        }
        other => panic!("{:?}", other),
    }
    assert_eq!(state.input_mode(), InputMode::Normal);
    assert!(prompt(&state).is_none());
}

#[test]
fn resuming_by_keys() {
    let mut state = AppState::new("log");
    state.on_key(Key::Char('2'));
    assert_eq!(state.input_mode(), InputMode::PromptingResume);
    let p = prompt(&state).expect("no prompt");
    assert_eq!(p.title, " ДЕЙСТВИЕ: АКТИВАЦИЯ ЗАЩИТЫ ");
    assert_eq!(p.label, "Введите Мастер-Пароль для подтверждения активации защиты:");
    assert_eq!(p.input, "");
    type_in(&mut state, "x");
    match state.on_key(Key::Enter) {
        KeyAction::Send(command) => assert_eq!(command.line(), "RESUME x\n"),
        other => panic!("{:?}", other),
    }
}

#[test]
fn blocking_by_keys() {
    let mut state = AppState::new("log");
    state.on_key(Key::Char('3'));
    assert_eq!(state.input_mode(), InputMode::PromptingAddBlockName);
    type_in(&mut state, " ");
    assert!(matches!(state.on_key(Key::Enter), KeyAction::Stay));
    assert_eq!(state.input_mode(), InputMode::PromptingAddBlockName);
    type_in(&mut state, "game.exe");
    let p = prompt(&state).expect("no prompt");
    assert_eq!(p.title, " ДЕЙСТВИЕ: БЛОКИРОВКА ПРОЦЕССА ");
    assert_eq!(
        p.label,
        "Введите имя исполняемого файла для блокировки (например, game.exe):"
    );
    assert_eq!(p.input, " game.exe");
    assert!(matches!(state.on_key(Key::Enter), KeyAction::Stay));
    assert_eq!(state.input_mode(), InputMode::PromptingAddBlockPassword);
    type_in(&mut state, "яp");
    let p = prompt(&state).expect("no prompt");
    assert_eq!(p.title, " ДЕЙСТВИЕ: БЛОКИРОВКА ПРОЦЕССА ");
    assert_eq!(p.label, "Блокировка ' game.exe'. Введите Мастер-Пароль:");
    assert_eq!(p.input, "***");
    match state.on_key(Key::Enter) {
        KeyAction::Send(command) => {
            assert_eq!(command.line(), "ADD_BLOCK яp  game.exe\n");
            match parse_request(&command.line()) {
                AdminRequest::AddBlock { password, name } => {
                    assert_eq!(password, "яp");
                    assert_eq!(name, "game.exe");
                }
                other => panic!("{:?}", other),
            }
        }
        other => panic!("{:?}", other),
    }
    assert_eq!(state.input_mode(), InputMode::Normal);
}

#[test]
fn unblocking_by_keys() {
    let mut state = AppState::new("log");
    state.on_key(Key::Char('4'));
    type_in(&mut state, "a");
    let p = prompt(&state).expect("no prompt");
    assert_eq!(p.title, " ДЕЙСТВИЕ: СНЯТИЕ БЛОКИРОВКИ ");
    assert_eq!(
        p.label,
        "Введите имя исполняемого файла для разблокировки (например, game.exe):"
    );
    state.on_key(Key::Enter);
    assert_eq!(state.input_mode(), InputMode::PromptingRemoveBlockPassword);
    assert_eq!(
        prompt(&state).expect("no prompt").label,
        "Разблокировка 'a'. Введите Мастер-Пароль:"
    );
    match state.on_key(Key::Enter) {
        KeyAction::Send(command) => assert_eq!(command.line(), "REMOVE_BLOCK  a\n"),
        other => panic!("{:?}", other),
    }
}

#[test]
fn escape_forgets_the_input() {
    for opening in ['1', '2', '3', '4'] {
        let mut state = AppState::new("log");
        state.on_key(Key::Char(opening));
        type_in(&mut state, "secret");
        assert!(matches!(state.on_key(Key::Esc), KeyAction::Stay));
        assert_eq!(state.input_mode(), InputMode::Normal);
        state.on_key(Key::Char(opening));
        assert_eq!(prompt(&state).expect("no prompt").input, "");
    }
}

#[test]
fn keys_without_a_meaning_do_nothing() {
    let mut state = AppState::new("log");
    for key in [Key::Enter, Key::Esc, Key::Backspace, Key::Other, Key::Char('5'), Key::Char('Q')] {
        assert!(matches!(state.on_key(key), KeyAction::Stay));
        assert_eq!(state.input_mode(), InputMode::Normal);
    }
    state.on_key(Key::Char('1'));
    assert!(matches!(state.on_key(Key::Other), KeyAction::Stay));
    assert!(matches!(state.on_key(Key::Backspace), KeyAction::Stay));
    assert!(matches!(state.on_key(Key::Char('q')), KeyAction::Stay));
    assert_eq!(prompt(&state).expect("no prompt").input, "*");
    state.on_key(Key::Esc);
    assert!(matches!(state.on_key(Key::Char('q')), KeyAction::Quit));
}

#[test]
fn feedback_lasts_four_seconds() {
    let mut state = AppState::new("log");
    state.set_feedback("hello", true, 1000);
    assert_eq!(state.feedback_message(), Some(("hello", true)));
    state.check_feedback_expiry(1000 + FEEDBACK_NANOS);
    assert_eq!(state.feedback_message(), Some(("hello", true)));
    state.check_feedback_expiry(1001 + FEEDBACK_NANOS);
    assert_eq!(state.feedback_message(), None);
    assert_eq!(FEEDBACK_NANOS, 4_000_000_000);
}

#[test]
fn a_prompt_takes_the_feedback_away() {
    let mut state = AppState::new("log");
    state.set_feedback("hello", true, 0);
    state.on_key(Key::Char('3'));
    assert_eq!(state.feedback_message(), None);
}

#[test]
fn answers_are_told() {
    let suspend = Command::Suspend { password: "p".to_string() };
    let resume = Command::Resume { password: "p".to_string() };
    let add = Command::AddBlock { password: "p".to_string(), process: "g".to_string() };
    let remove = Command::RemoveBlock { password: "p".to_string(), process: "g".to_string() };
    for (command, answer, text, good) in [
        (&suspend, Ok("OK\n"), "УСПЕШНО: Защита приостановлена.", true),
        (&resume, Ok("OK"), "УСПЕШНО: Защита активирована.", true),
        (&add, Ok("OK\n"), "УСПЕШНО: Процесс 'g' заблокирован.", true),
        (&remove, Ok("OK\n"), "УСПЕШНО: Блокировка с 'g' снята.", true),
        (&suspend, Ok("ERROR: Invalid password\n"), "ОШИБКА: ERROR: Неверный пароль", false),
        (&resume, Ok("ERROR: Invalid password\n"), "ОШИБКА: ERROR: Неверный пароль", false),
        (&resume, Ok("Process not found"), "ОШИБКА: Process not found", false),
        (&add, Ok("Process already blocked"), "ОШИБКА: Процесс уже заблокирован", false),
        (&remove, Ok("Process not found"), "ОШИБКА: Процесс не найден в списке", false),
        (&suspend, Ok(""), "ОШИБКА: ", false),
        (&suspend, Err("no pipe"), "Ошибка связи: no pipe", false),
    ] {
        let mut state = AppState::new("log");
        state.take_answer(command, answer, 5);
        assert_eq!(state.feedback_message(), Some((text, good)));
        state.check_feedback_expiry(5 + FEEDBACK_NANOS + 1);
        assert_eq!(state.feedback_message(), None);
    }
}

#[test]
fn the_status_bar() {
    let mut state = AppState::new("log");
    state.update_system_state("RUNNING", "NOT INSTALLED", Some("STATE: Active\n"));
    let bar = status_bar(&state);
    assert_eq!((bar.core.text.as_str(), bar.core.colour), ("ЗАПУЩЕНО", Colour::Green));
    assert_eq!(
        (bar.watchdog.text.as_str(), bar.watchdog.colour),
        ("НЕ УСТАНОВЛЕНА", Colour::DarkGray)
    );
    assert_eq!((bar.protection.text.as_str(), bar.protection.colour), ("АКТИВЕН", Colour::Green));
    assert!(bar.feedback.is_none());
    state.update_system_state("STATE (5)", "STOPPED", Some("STATE: Suspended\n"));
    state.set_feedback("done", true, 0);
    let bar = status_bar(&state);
    assert_eq!((bar.core.text.as_str(), bar.core.colour), ("STATE (5)", Colour::Red));
    assert_eq!((bar.watchdog.text.as_str(), bar.watchdog.colour), ("ОСТАНОВЛЕНО", Colour::Red));
    assert_eq!(bar.protection.colour, Colour::Red);
    let feedback = bar.feedback.expect("no feedback");
    assert_eq!((feedback.text.as_str(), feedback.colour), ("   [ done ]", Colour::Green));
    state.update_system_state("", "", Some("STATE: odd\n"));
    state.set_feedback("bad", false, 0);
    let bar = status_bar(&state);
    assert_eq!((bar.protection.text.as_str(), bar.protection.colour), ("ODD", Colour::Yellow));
    assert_eq!(bar.feedback.expect("no feedback").colour, Colour::Red);
}

#[test]
fn rows_of_the_table() {
    for (level, name, colour) in [
        ("ERROR", "ОШИБКА", Colour::Red),
        ("FATAL", "ОШИБКА", Colour::Red),
        ("WARN", "ПРЕДУПР", Colour::Yellow),
        ("INFO", "ИНФО", Colour::Green),
        ("DEBUG", "DEBUG", Colour::White),
    ] {
        let row = event_row(&event(level, Some("db"), Some("Database initialized")), 0);
        assert_eq!((row.level.text.as_str(), row.level.colour), (name, colour));
        assert_eq!(row.category, "База Данных");
        assert_eq!(row.message, "База данных успешно инициализирована");
        assert_eq!(row.time, "12:34:56");
    }
    let bare = event_row(&event("INFO", None, None), 3600);
    assert_eq!(bare.category, "Общее");
    assert_eq!(bare.message, "");
    assert_eq!(bare.time, "13:34:56");
}

#[test]
fn sizes_agree_with_floating_point() {
    for n in (0u64..70_000).chain((1..400).map(|k| k * 123_457_891)) {
        assert_eq!(size_text(n), format!("{:.1}", n as f64 / 1024.0), "{}", n);
    }
    assert_eq!(size_text(MAX_EXACT_SIZE), "8796093022208.0");
    assert_eq!(
        size_text(MAX_EXACT_SIZE - 1),
        format!("{:.1}", (MAX_EXACT_SIZE - 1) as f64 / 1024.0)
    );
    assert_eq!(size_text(256), "0.2");
    assert_eq!(size_text(768), "0.8");
}

#[test]
fn masks_count_bytes() {
    for s in ["", "a", "пароль", "€", "😀x", "\u{7f}\u{80}\u{7ff}\u{800}\u{ffff}\u{10000}"] {
        assert_eq!(mask(s), "*".repeat(s.len()));
    }
}

#[test]
fn times_are_shown_by_the_clock() {
    assert_eq!(format_timestamp("2026-07-03T12:34:56.789Z", 0), "12:34:56");
    assert_eq!(format_timestamp("2026-07-03T23:59:59+03:00", 0), "20:59:59");
    assert_eq!(format_timestamp("2026-07-03T23:30:00Z", 3600 * 3), "02:30:00");
    assert_eq!(format_timestamp("2026-07-03T00:00:00Z", -1), "23:59:59");
    assert_eq!(format_timestamp("1960-01-01T00:00:01Z", 0), "00:00:01");
    assert_eq!(format_timestamp("2016-12-31T23:59:60Z", 0), {
        DateTime::parse_from_rfc3339("2016-12-31T23:59:60Z")
            .expect("no time")
            .with_timezone(&FixedOffset::east_opt(0).expect("no offset"))
            .format("%H:%M:%S")
            .to_string()
    });
    assert_eq!(format_timestamp("yesterday", 0), "yesterday");
    assert_eq!(format_timestamp("", 0), "");
    let t = parse_timestamp("1970-01-01T00:01:00Z").expect("no time");
    assert_eq!(clock_text(t, 0), "00:01:00");
    assert!(parse_timestamp("1970-01-01").is_none());
}

#[test]
fn times_agree_with_chrono() {
    for ts in ["1969-12-31T23:59:59.5Z", "2000-02-29T01:02:03+14:00", "2038-01-19T03:14:08-11:30"] {
        for offset in [-86399, -43200, -1, 0, 1, 1800, 20700, 50400, 86399] {
            let expected = DateTime::parse_from_rfc3339(ts)
                .expect("no time")
                .with_timezone(&FixedOffset::east_opt(offset).expect("no offset"))
                .format("%H:%M:%S")
                .to_string();
            assert_eq!(format_timestamp(ts, offset), expected);
        }
    }
}

fn share(percent: i64, total: i64) -> i64 {
    (percent * total + 50) / 100
}

fn check_dialog(px: u16, py: u16, area: Area) {
    let r = centered_rect(px, py, area);
    for (percent, start, size, at, n) in [
        (px, area.x, area.width, r.x, r.width),
        (py, area.y, area.height, r.y, r.height),
    ] {
        let (percent, start, at) = (percent as i64, start as i64, at as i64);
        let extent = (start + size as i64).min(65535) - start;
        let before = (100 - percent) / 2;
        assert_eq!(at - start, share(before, extent), "{} {} {:?} {:?}", px, py, area, r);
        assert_eq!(
            at + n as i64 - start,
            share(before + percent, extent),
            "{} {} {:?} {:?}",
            px,
            py,
            area,
            r
        );
    }
}

#[test]
fn the_dialog_takes_its_share_of_the_screen() {
    let screen = Area { x: 0, y: 0, width: 100, height: 40 };
    assert_eq!(
        centered_rect(60, 25, screen),
        Area { x: 20, y: 15, width: 60, height: 10 }
    );
    assert_eq!(centered_rect(100, 100, screen), screen);
    assert_eq!(centered_rect(60, 25, Area { x: 1, y: 2, width: 0, height: 0 }), {
        Area { x: 1, y: 2, width: 0, height: 0 }
    });
}

#[test]
fn the_dialog_is_cut_at_the_nearest_cell() {
    for size in 0..=130u16 {
        for percent in [0u16, 1, 13, 25, 50, 60, 67, 99, 100] {
            check_dialog(percent, 100 - percent, Area { x: 3, y: 0, width: size, height: size });
        }
    }
}

#[test]
fn the_dialog_lies_on_huge_screens() {
    for (start, size) in [
        (0u16, 65535u16),
        (1, 65534),
        (60000, 10000),
        (65535, 65535),
        (65535, 0),
        (32767, 32767),
        (65000, 535),
        (65000, 536),
        (12345, 45678),
    ] {
        for percent in 0..=100u16 {
            let area = Area { x: start, y: start, width: size, height: size };
            check_dialog(percent, percent, area);
        }
    }
}

#[test]
fn states_are_translated() {
    for (state, name) in [
        ("RUNNING", "ЗАПУЩЕНО"),
        ("STOPPED", "ОСТАНОВЛЕНО"),
        ("NOT INSTALLED", "НЕ УСТАНОВЛЕНА"),
        ("STARTING", "ЗАПУСКАЕТСЯ"),
        ("STOPPING", "ОСТАНАВЛИВАЕТСЯ"),
        ("PAUSED", "ПАУЗА"),
        ("ACTIVE", "АКТИВЕН"),
        ("SUSPENDED", "ПРИОСТАНОВЛЕН"),
        ("UNKNOWN", "UNKNOWN"),
        ("running", "running"),
    ] {
        assert_eq!(translate_status(state), name);
    }
}

#[test]
fn events_are_translated() {
    for (category, message, category_ru, message_ru) in [
        ("process_blocked", "x Blocked process: a b", "Блокировка", "Заблокирован запуск процесса: a b"),
        ("process_blocked", "Blocked process calc", "Блокировка", "Заблокирован запуск процесса: calc"),
        ("process_blocked", "other", "Блокировка", "other"),
        (
            "watchdog_event",
            "CoreService stopped responding!",
            "Контроль",
            "Обнаружено зависание Ядра! Выполняется экстренный перезапуск...",
        ),
        (
            "watchdog_event",
            "Successfully restarted",
            "Контроль",
            "Служба Ядра успешно перезапущена силами Watchdog",
        ),
        (
            "watchdog_event",
            "Failed to restart it",
            "Контроль",
            "Критическая ошибка: Watchdog не смог перезапустить службу Ядра",
        ),
        ("watchdog_event", "else", "Контроль", "else"),
        (
            "system_override",
            "now suspended",
            "Управление",
            "Режим защиты ПРИОСТАНОВЛЕН администратором",
        ),
        ("system_status", "Resumed", "Управление", "Режим защиты ВОЗОБНОВЛЕН (активен)"),
        ("system_status", "other", "Управление", "other"),
        (
            "process_lifecycle",
            "CoreService started successfully.",
            "Система",
            "Служба Ядра успешно запущена и контролирует систему",
        ),
        ("process_lifecycle", "it has Stopped", "Система", "Служба Ядра остановлена"),
        ("process_lifecycle", "other", "Система", "other"),
        (
            "ipc_command",
            "ADD_BLOCK command received for: game.exe",
            "Администрирование",
            "Добавлен в список блокировки: game.exe",
        ),
        (
            "admin_action",
            "REMOVE_BLOCK command received for: game.exe",
            "Администрирование",
            "Удален из списка блокировки: game.exe",
        ),
        (
            "ipc",
            "Core Service started, Core Service stopped",
            "Администрирование",
            "Служба Ядра запущена, Служба Ядра остановлена",
        ),
        (
            "database",
            "Admin command received: SUSPEND; Admin command received: RESUME",
            "База Данных",
            "Получена команда: ПРИОСТАНОВИТЬ ЗАЩИТУ; Получена команда: АКТИВИРОВАТЬ ЗАЩИТУ",
        ),
        ("heartbeat", "Heartbeat sent: x", "Общее", "Heartbeat sent: x"),
    ] {
        assert_eq!(
            translate_event(category, message),
            (category_ru.to_string(), message_ru.to_string())
        );
    }
}

#[test]
fn translating_twice_is_translating_once() {
    for (category, message) in [
        ("watchdog_event", "CoreService stopped responding"),
        ("watchdog_event", "Successfully restarted"),
        ("watchdog_event", "Failed to restart"),
        ("system_override", "System suspended"),
        ("system_status", "Resumed"),
        ("process_lifecycle", "Core Service started"),
        ("process_lifecycle", "Stopped"),
        ("process_blocked", "Blocked process: game.exe"),
        ("process_blocked", "Blocked process game.exe"),
        ("ipc", "ADD_BLOCK command received for: game.exe"),
        ("ipc", "REMOVE_BLOCK command received for: game.exe"),
        ("db", "Core Core Service startedService started, Database initialized"),
        ("ipc", "Admin command received: SUSPENDAdmin command received: RESUME"),
    ] {
        let once = translate_event(category, message).1;
        assert_ne!(once, message);
        assert_eq!(translate_event(category, &once).1, once);
    }
    let once = translate_event("process_blocked", "Blocked process: Blocked process: a").1;
    assert_eq!(once, "Заблокирован запуск процесса: Blocked process: a");
    let twice = translate_event("process_blocked", &once).1;
    assert_eq!(twice, "Заблокирован запуск процесса: a");
}

#[test]
fn reading_leaves_the_input_alone() {
    let mut state = AppState::new("log");
    state.on_key(Key::Char('3'));
    type_in(&mut state, "game");
    state.begin_reading(10);
    state.read_new_logs(10, numbered(0, 60), true);
    state.update_system_state("RUNNING", "RUNNING", Some("STATE: Active\n"));
    state.set_feedback("x", true, 0);
    state.check_feedback_expiry(FEEDBACK_NANOS + 1);
    assert_eq!(state.input_mode(), InputMode::PromptingAddBlockName);
    assert_eq!(prompt(&state).expect("no prompt").input, "game");
}

#[test]
fn passwords_of_one_length_look_the_same() {
    let shown: Vec<String> = ["abcd", "яё", "😀"]
        .iter()
        .map(|password| {
            let mut state = AppState::new("log");
            state.on_key(Key::Char('2'));
            type_in(&mut state, password);
            prompt(&state).expect("no prompt").input
        })
        .collect();
    assert_eq!(shown, vec!["****", "****", "****"]);
}
