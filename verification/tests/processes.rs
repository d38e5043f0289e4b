use oko_monitor::audit::Level;
use oko_monitor::db::{Db, DbError};
use oko_monitor::process::{
    blocked_or_fallback, blocking_round, check_and_block_processes, ended_event,
    is_core_service, plan_terminations, ProcessEntry, Termination,
};
use oko_monitor::translate::translate_event;
use oko_monitor::utf16::{buffer_text, decode_lossy, decode_strict, to_wide_string};

fn entry(pid: u32, name: &str) -> ProcessEntry {
    let mut exe_file: Vec<u16> = name.encode_utf16().collect();
    exe_file.push(0);
    exe_file.resize(260, 0x41);
    ProcessEntry { pid, exe_file }
}

fn names(list: &[&str]) -> Vec<String> {
    list.iter().map(|n| n.to_string()).collect()
}

fn target(pid: u32, name: &str) -> Termination {
    Termination { pid, exe_name: name.to_string() }
}

#[test]
fn blocked_processes_are_ended_in_any_case() {
    let running = vec![
        entry(4, "System"),
        entry(10, "CALC.exe"),
        entry(11, "calc.exe.bak"),
        entry(12, "Игра.EXE"),
        entry(13, "calc.exe"),
    ];
    assert_eq!(
        plan_terminations(&names(&["calc.exe", "игра.exe"]), &running),
        vec![target(10, "CALC.exe"), target(12, "Игра.EXE"), target(13, "calc.exe")]
    );
    assert!(plan_terminations(&names(&["Calc.exe"]), &running).is_empty());
    assert!(plan_terminations(&names(&[]), &running).is_empty());
    assert_eq!(plan_terminations(&names(&["system", "system"]), &running).len(), 2);
}

#[test]
fn a_round_of_blocking() {
    let mut db = Db::new_in_memory().expect("no database");
    db.add_blocked_process("game.exe").expect("not added");
    let running = vec![entry(1, "Notepad.exe"), entry(2, "Game.exe"), entry(3, "other.exe")];
    let round = check_and_block_processes(&db, false, &running);
    assert_eq!(
        round.terminations,
        vec![target(1, "Notepad.exe"), target(2, "Game.exe")]
    );
    assert!(round.event.is_none());
    let idle = check_and_block_processes(&db, true, &running);
    assert!(idle.terminations.is_empty());
    assert!(idle.event.is_none());
}

#[test]
fn an_unreadable_list_falls_back() {
    let (list, event) = blocked_or_fallback(Err(DbError { text: "no such table".to_string() }));
    assert_eq!(list, vec!["calc.exe", "notepad.exe", "mspaint.exe"]);
    let event = event.expect("no entry");
    assert_eq!(event.level, Level::Error);
    assert_eq!(event.category, "database_error");
    assert_eq!(event.message, "Failed to query blocked processes: no such table");
    let (list, event) = blocked_or_fallback(Ok(names(&["a"])));
    assert_eq!(list, vec!["a"]);
    assert!(event.is_none());
}

#[test]
fn a_round_follows_what_was_read() {
    let running = vec![entry(1, "Notepad.exe"), entry(2, "Game.exe"), entry(3, "other.exe")];
    let read = blocking_round(Ok(names(&["game.exe"])), &running);
    assert_eq!(read.terminations, vec![target(2, "Game.exe")]);
    assert!(read.event.is_none());
    let empty = blocking_round(Ok(Vec::new()), &running);
    assert!(empty.terminations.is_empty());
    assert!(empty.event.is_none());
    let failed = blocking_round(Err(DbError { text: "no such table".to_string() }), &running);
    assert_eq!(failed.terminations, vec![target(1, "Notepad.exe")]);
    let event = failed.event.expect("no entry");
    assert_eq!(event.level, Level::Error);
    assert_eq!(event.message, "Failed to query blocked processes: no such table");
}

#[test]
fn an_ended_process_is_logged() {
    let event = ended_event(&target(4294967295, "Calc.exe"));
    assert_eq!(event.level, Level::Warn);
    assert_eq!(event.category, "process_blocked");
    assert_eq!(event.message, "Blocked forbidden process: Calc.exe (PID: 4294967295)");
    let shown = translate_event(&event.category, &event.message);
    assert_eq!(shown.0, "Блокировка");
}

#[test]
fn the_core_service_is_known_by_its_name() {
    assert!(is_core_service(&entry(1, "Core-Service.EXE")));
    assert!(!is_core_service(&entry(1, "core-service")));
}

#[test]
fn wide_strings_agree_with_std() {
    for s in ["", "CoreService", "Служба", "😀a", "a\0b"] {
        let expected: Vec<u16> = s.encode_utf16().chain(Some(0)).collect();
        assert_eq!(to_wide_string(s), expected);
    }
}

#[test]
fn decoding_agrees_with_std() {
    let smile: Vec<u16> = "😀".encode_utf16().collect();
    let mut broken: Vec<Vec<u16>> = vec![
        vec![],
        vec![0x41, 0xd83d],
        vec![0xde00, 0x41],
        vec![0xd83d, 0xd83d, 0xde00],
        vec![0xd83d, 0x41, 0xde00],
        vec![0xffff, 0xfffd, 0xe000, 0xd7ff],
        smile,
    ];
    for high in [0xd800u16, 0xdbff, 0xdc00, 0xdfff] {
        for low in [0u16, 0xd7ff, 0xd800, 0xdbff, 0xdc00, 0xdfff, 0xe000] {
            broken.push(vec![high, low]);
        }
    }
    for u in broken {
        assert_eq!(decode_lossy(&u), String::from_utf16_lossy(&u));
        assert_eq!(decode_strict(&u, u.len()), String::from_utf16(&u).ok());
    }
}

#[test]
fn names_end_at_the_first_zero() {
    assert_eq!(buffer_text(&vec![0x61, 0x62, 0, 0x63]), "ab");
    assert_eq!(buffer_text(&vec![0x61, 0x62]), "ab");
    assert_eq!(buffer_text(&vec![0, 0x62]), "");
}
