use oko_monitor::admin::{
    add_block_command, carry_out, parse_request, remove_block_command, request_verdict, respond,
    resume_command, serve_line, status_command, suspend_command, AdminRequest,
};
use oko_monitor::audit::Level;
use oko_monitor::db::{Db, DbError};
use oko_monitor::network::Edition;

fn service() -> Db {
    let mut db = Db::new_in_memory().expect("no database");
    db.set_master_password("s3cret").expect("no password");
    db
}

#[test]
fn status_is_open_to_all() {
    let mut db = Db::new_in_memory().expect("no database");
    let active = serve_line(Edition::Networked, &mut db, false, "STATUS\n");
    assert_eq!(active.reply, "STATE: Active\n");
    assert!(!active.suspended);
    assert!(active.event.is_none());
    let suspended = serve_line(Edition::Networked, &mut db, true, "  STATUS\r\n");
    assert_eq!(suspended.reply, "STATE: Suspended\n");
    assert!(suspended.suspended);
}

#[test]
fn suspend_and_resume_with_the_password() {
    let mut db = service();
    let down = serve_line(Edition::Networked, &mut db, false, "SUSPEND s3cret\n");
    assert_eq!(down.reply, "OK\n");
    assert!(down.suspended);
    let event = down.event.expect("no entry");
    assert_eq!(event.level, Level::Warn);
    assert_eq!(event.category, "system_override");
    assert_eq!(event.message, "System SUSPENDED via Admin pipe.");
    let up = serve_line(Edition::Networked, &mut db, true, "RESUME s3cret\n");
    assert_eq!(up.reply, "OK\n");
    assert!(!up.suspended);
    let event = up.event.expect("no entry");
    assert_eq!(event.level, Level::Info);
    assert_eq!(event.message, "System RESUMED via Admin pipe.");
}

#[test]
fn nothing_changes_without_the_password() {
    let mut db = service();
    let before = db.get_blocked_processes().expect("no list");
    for (line, message) in [
        ("SUSPEND wrong\n", "Invalid password for SUSPEND command."),
        ("RESUME wrong\n", "Invalid password for RESUME command."),
        ("ADD_BLOCK wrong game.exe\n", "Invalid password for ADD_BLOCK command."),
        ("REMOVE_BLOCK wrong calc.exe\n", "Invalid password for REMOVE_BLOCK command."),
    ] {
        for suspended in [false, true] {
            let r = serve_line(Edition::Networked, &mut db, suspended, line);
            assert_eq!(r.reply, "ERROR: Invalid password\n");
            assert_eq!(r.suspended, suspended);
            let event = r.event.expect("no entry");
            assert_eq!(event.level, Level::Error);
            assert_eq!(event.category, "unauthorized_access");
            assert_eq!(event.message, message);
        }
    }
    assert_eq!(db.get_blocked_processes().expect("no list"), before);
}

#[test]
fn block_list_follows_requests() {
    let mut db = service();
    let added = serve_line(Edition::Networked, &mut db, false, "ADD_BLOCK s3cret   game one.exe \n");
    assert_eq!(added.reply, "OK\n");
    assert_eq!(added.event.expect("no entry").message, "Added dynamic block: game one.exe");
    assert!(db
        .get_blocked_processes()
        .expect("no list")
        .contains(&"game one.exe".to_string()));
    let removed = serve_line(Edition::Networked, &mut db, true, "REMOVE_BLOCK s3cret game one.exe\n");
    assert_eq!(removed.reply, "OK\n");
    assert!(removed.suspended);
    assert_eq!(removed.event.expect("no entry").message, "Removed dynamic block: game one.exe");
    assert!(!db
        .get_blocked_processes()
        .expect("no list")
        .contains(&"game one.exe".to_string()));
}

#[test]
fn malformed_lines_are_answered() {
    let mut db = service();
    for (line, reply) in [
        ("ADD_BLOCK s3cret\n", "ERROR: Invalid format. Expected: ADD_BLOCK <password> <process_name>\n"),
        ("REMOVE_BLOCK s3cret\n", "ERROR: Invalid format. Expected: REMOVE_BLOCK <password> <process_name>\n"),
        ("SUSPEND\n", "ERROR: Unknown command\n"),
        ("status\n", "ERROR: Unknown command\n"),
        ("\n", "ERROR: Unknown command\n"),
    ] {
        let r = serve_line(Edition::Networked, &mut db, false, line);
        assert_eq!(r.reply, reply);
        assert!(r.event.is_none());
        assert!(!r.suspended);
    }
}

#[test]
fn database_errors_are_told() {
    let request = AdminRequest::AddBlock {
        password: "s3cret".to_string(),
        name: "game.exe".to_string(),
    };
    let stored = Err(DbError { text: "disk I/O error".to_string() });
    let r = respond(Edition::Plain, &request, true, true, &stored);
    assert_eq!(r.reply, "ERROR: Database error: disk I/O error\n");
    assert!(r.suspended);
    assert!(r.event.is_none());
}

#[test]
fn requests_are_read_as_they_are_written() {
    assert!(matches!(parse_request(&status_command()), AdminRequest::Status));
    match parse_request(&suspend_command(" pass word")) {
        AdminRequest::Suspend(p) => assert_eq!(p, " pass word"),
        other => panic!("{:?}", other),
    }
    match parse_request(&resume_command("пароль")) {
        AdminRequest::Resume(p) => assert_eq!(p, "пароль"),
        other => panic!("{:?}", other),
    }
    match parse_request(&add_block_command("pw", " my game.exe ")) {
        AdminRequest::AddBlock { password, name } => {
            assert_eq!(password, "pw");
            assert_eq!(name, "my game.exe");
        }
        other => panic!("{:?}", other),
    }
    match parse_request(&remove_block_command("", "game.exe")) {
        AdminRequest::RemoveBlock { password, name } => {
            assert_eq!(password, "");
            assert_eq!(name, "game.exe");
        }
        other => panic!("{:?}", other),
    }
    assert_eq!(add_block_command("a", "b"), "ADD_BLOCK a b\n");
    assert_eq!(remove_block_command("a", "b"), "REMOVE_BLOCK a b\n");
}

#[test]
fn passwords_that_a_line_cannot_carry() {
    assert!(matches!(parse_request(&suspend_command("")), AdminRequest::Unknown));
    match parse_request(&suspend_command("end ")) {
        AdminRequest::Suspend(p) => assert_eq!(p, "end"),
        other => panic!("{:?}", other),
    }
    match parse_request(&add_block_command("two words", "game.exe")) {
        AdminRequest::AddBlock { password, name } => {
            assert_eq!(password, "two");
            assert_eq!(name, "words game.exe");
        }
        other => panic!("{:?}", other),
    }
}

#[test]
fn the_plain_edition_has_its_own_wording() {
    let mut db = service();
    let down = serve_line(Edition::Plain, &mut db, false, "SUSPEND s3cret\n");
    assert_eq!(down.reply, "OK\n");
    assert!(down.suspended);
    let event = down.event.expect("no entry");
    assert_eq!(event.level, Level::Warn);
    assert_eq!(
        event.message,
        "System Suspend successfully activated via master password override."
    );
    let up = serve_line(Edition::Plain, &mut db, true, "RESUME s3cret\n");
    assert!(!up.suspended);
    let event = up.event.expect("no entry");
    assert_eq!(event.level, Level::Warn);
    assert_eq!(event.category, "system_override");
    assert_eq!(event.message, "System Resume successfully activated via master password.");
}

#[test]
fn requests_are_held_to_the_digest_that_was_read() {
    let db = service();
    let read = db.stored_hash();
    assert_eq!(read, Some(db.hash_password("s3cret")));
    for line in ["SUSPEND s3cret", "RESUME s3cret", "ADD_BLOCK s3cret a", "REMOVE_BLOCK s3cret a"] {
        assert!(request_verdict(&parse_request(line), &read));
        assert!(!request_verdict(&parse_request(line), &None));
        let other = Some(db.hash_password("other"));
        assert!(!request_verdict(&parse_request(line), &other));
    }
    for line in ["STATUS", "s3cret", "ADD_BLOCK s3cret", "REMOVE_BLOCK s3cret", "SUSPEND"] {
        assert!(!request_verdict(&parse_request(line), &read));
    }
    assert!(Db::new_in_memory().expect("no database").stored_hash().is_none());
}

#[test]
fn a_request_is_carried_out_by_the_digest_that_was_read() {
    let mut db = service();
    let read = Some(db.hash_password("other"));
    let add = parse_request("ADD_BLOCK other game.exe");
    assert_eq!(carry_out(Edition::Plain, &mut db, false, &add, &None).reply, "ERROR: Invalid password\n");
    assert!(!db.get_blocked_processes().expect("no list").contains(&"game.exe".to_string()));
    assert_eq!(carry_out(Edition::Plain, &mut db, false, &add, &read).reply, "OK\n");
    assert!(db.get_blocked_processes().expect("no list").contains(&"game.exe".to_string()));
    let suspend = parse_request("SUSPEND other");
    assert!(carry_out(Edition::Plain, &mut db, false, &suspend, &read).suspended);
    assert!(!carry_out(Edition::Plain, &mut db, false, &suspend, &service().stored_hash()).suspended);
}

#[test]
fn no_request_changes_the_password() {
    let mut db = service();
    for line in [
        "SUSPEND s3cret",
        "RESUME s3cret",
        "ADD_BLOCK s3cret game.exe",
        "REMOVE_BLOCK s3cret calc.exe",
        "SET_PASSWORD s3cret new",
        "STATUS",
    ] {
        serve_line(Edition::Plain, &mut db, false, line);
        assert!(db.verify_password("s3cret"));
        assert!(!db.verify_password("new"));
    }
}
