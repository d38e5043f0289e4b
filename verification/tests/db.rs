use oko_monitor::db::{
    accepts_hash, accepts_password, done_or_error, names_or_error, readable_names,
    value_or_nothing, Db,
};

#[test]
fn test_db_initialization() {
    let db = Db::new_in_memory().expect("Failed to create in-memory db");
    let blocked = db
        .get_blocked_processes()
        .expect("Failed to get blocked processes");
    assert_eq!(blocked.len(), 3);
    assert!(blocked.contains(&"calc.exe".to_string()));
}

#[test]
fn test_password_verification() {
    let mut db = Db::new_in_memory().expect("Failed to create in-memory db");
    db.set_master_password("my_secret_pin")
        .expect("Failed to set password");

    assert!(db.verify_password("my_secret_pin"));
    assert!(!db.verify_password("wrong_pin"));
}

#[test]
fn test_blocked_processes_management() {
    let mut db = Db::new_in_memory().expect("Failed to create in-memory db");

    db.add_blocked_process("game.exe")
        .expect("Failed to add process");
    let blocked = db.get_blocked_processes().expect("Failed to get processes");
    assert!(blocked.contains(&"game.exe".to_string()));

    db.remove_blocked_process("game.exe")
        .expect("Failed to remove process");
    let blocked_after = db.get_blocked_processes().expect("Failed to get processes");
    assert!(!blocked_after.contains(&"game.exe".to_string()));
}

#[test]
fn the_default_processes_are_blocked_at_first() {
    let db = Db::new_in_memory().expect("no database");
    let mut names = db.get_blocked_processes().expect("no list");
    names.sort();
    assert_eq!(names, vec!["calc.exe", "mspaint.exe", "notepad.exe"]);
}

#[test]
fn an_opened_database_keeps_its_list() {
    let conn = rusqlite::Connection::open_in_memory().expect("no connection");
    conn.execute("CREATE TABLE blocked_processes (name TEXT PRIMARY KEY)", [])
        .expect("no table");
    conn.execute("INSERT INTO blocked_processes (name) VALUES ('only.exe')", [])
        .expect("no row");
    let db = Db::with_connection(conn).expect("no database");
    assert_eq!(db.get_blocked_processes().expect("no list"), vec!["only.exe"]);
}

#[test]
fn a_database_of_another_shape_is_an_error() {
    let conn = rusqlite::Connection::open_in_memory().expect("no connection");
    conn.execute("CREATE TABLE blocked_processes (id INTEGER)", [])
        .expect("no table");
    match Db::with_connection(conn) {
        Err(e) => {
            assert!(e.error.text.contains("blocked_processes"), "{}", e.error.text);
            assert!(e.conn.is_some());
        }
        Ok(_) => panic!("the database was taken"),
    }
}

#[test]
fn adding_twice_lists_once() {
    let mut db = Db::new_in_memory().expect("no database");
    db.add_blocked_process("game.exe").expect("not added");
    db.add_blocked_process("game.exe").expect("not added");
    let names = db.get_blocked_processes().expect("no list");
    assert_eq!(names.iter().filter(|n| n.as_str() == "game.exe").count(), 1);
    assert_eq!(names.len(), 4);
    db.remove_blocked_process("absent.exe").expect("not removed");
    assert_eq!(db.get_blocked_processes().expect("no list").len(), 4);
}

#[test]
fn no_password_is_accepted_before_one_is_set() {
    let mut db = Db::new_in_memory().expect("no database");
    assert!(!db.verify_password(""));
    assert!(!db.verify_hash(""));
    db.set_master_password("one").expect("not set");
    db.set_master_password("two").expect("not set");
    assert!(!db.verify_password("one"));
    assert!(db.verify_password("two"));
}

#[test]
fn digests_are_compared_loosely() {
    let mut db = Db::new_in_memory().expect("no database");
    db.set_master_password("abc").expect("not set");
    let hash = db.hash_password("abc");
    assert_eq!(
        hash,
        "ba7816bf8f01cfea414140de5dae2223b00361a396177a9cb410ff61f20015ad"
    );
    assert_eq!(
        db.hash_password(""),
        "e3b0c44298fc1c149afbf4c8996fb92427ae41e4649b934ca495991b7852b855"
    );
    assert!(db.verify_hash(&hash));
    assert!(db.verify_hash(&format!("  {}\n", hash.to_uppercase())));
    assert!(!db.verify_hash("ba7816bf"));
}

#[test]
fn stored_digests_decide() {
    let stored =
        Some("ba7816bf8f01cfea414140de5dae2223b00361a396177a9cb410ff61f20015ad".to_string());
    assert!(accepts_password(&stored, "abc"));
    assert!(!accepts_password(&stored, "abd"));
    assert!(!accepts_password(&None, "abc"));
    assert!(accepts_hash(&Some(" AB ".to_string()), "ab"));
    assert!(!accepts_hash(&None, ""));
}

#[test]
fn unreadable_rows_are_left_out() {
    let rows = vec![Some("a".to_string()), None, Some("b".to_string())];
    assert_eq!(readable_names(rows), vec!["a", "b"]);
}

#[test]
fn results_of_sqlite_are_passed_on() {
    assert!(done_or_error(Ok(())).is_ok());
    let e = done_or_error(Err(rusqlite::Error::QueryReturnedNoRows)).expect_err("no error");
    assert_eq!(e.text, rusqlite::Error::QueryReturnedNoRows.to_string());
    let rows = vec![Some("a".to_string()), None];
    assert_eq!(names_or_error(Ok(rows)).expect("no list"), vec!["a"]);
    let e = names_or_error(Err(rusqlite::Error::InvalidQuery)).expect_err("no error");
    assert_eq!(e.text, rusqlite::Error::InvalidQuery.to_string());
    assert_eq!(value_or_nothing(Ok("v".to_string())), Some("v".to_string()));
    assert_eq!(value_or_nothing(Err(rusqlite::Error::QueryReturnedNoRows)), None);
}

#[test]
fn a_failed_change_is_an_error_and_changes_nothing() {
    let conn = rusqlite::Connection::open_in_memory().expect("no connection");
    conn.execute("CREATE TABLE blocked_processes (name TEXT PRIMARY KEY)", [])
        .expect("no table");
    conn.execute("INSERT INTO blocked_processes (name) VALUES ('only.exe')", [])
        .expect("no row");
    conn.execute("CREATE TABLE config (key TEXT PRIMARY KEY, value TEXT NOT NULL)", [])
        .expect("no table");
    conn.execute("PRAGMA query_only = ON", []).expect("no pragma");
    let mut db = Db::with_connection(conn).expect("no database");
    assert!(db.add_blocked_process("game.exe").is_err());
    assert!(db.remove_blocked_process("only.exe").is_err());
    assert!(db.set_master_password("pw").is_err());
    assert_eq!(db.get_blocked_processes().expect("no list"), vec!["only.exe"]);
    assert!(!db.verify_password("pw"));
}

#[test]
fn a_connection_that_was_not_opened_is_an_error() {
    match Db::new(Err(rusqlite::Error::InvalidQuery)) {
        Err(e) => {
            assert!(e.conn.is_none());
            assert_eq!(e.error.text, rusqlite::Error::InvalidQuery.to_string());
        }
        Ok(_) => panic!("there is a database"),
    }
    let db = Db::new(rusqlite::Connection::open_in_memory()).expect("no database");
    assert_eq!(db.get_blocked_processes().expect("no list").len(), 3);
}

#[test]
fn the_count_decides_on_the_default_names() {
    let mut db = Db::new_in_memory().expect("no database");
    for name in ["calc.exe", "notepad.exe", "mspaint.exe"] {
        db.remove_blocked_process(name).expect("not removed");
    }
    assert!(db.fill(Err(rusqlite::Error::InvalidQuery)).is_err());
    assert!(db.fill(Ok(1)).is_ok());
    assert!(db.get_blocked_processes().expect("no list").is_empty());
    assert!(db.fill(Ok(0)).is_ok());
    let mut names = db.get_blocked_processes().expect("no list");
    names.sort();
    assert_eq!(names, vec!["calc.exe", "mspaint.exe", "notepad.exe"]);
    assert!(db.fill(Ok(0)).is_err());
    assert_eq!(db.get_blocked_processes().expect("no list").len(), 3);
}

#[test]
fn two_databases_in_memory_are_apart() {
    let mut one = Db::new_in_memory().expect("no database");
    one.set_master_password("pw").expect("not set");
    one.add_blocked_process("game.exe").expect("not added");
    let two = Db::new_in_memory().expect("no database");
    assert!(!two.verify_password("pw"));
    assert_eq!(two.get_blocked_processes().expect("no list").len(), 3);
    assert_eq!(one.get_blocked_processes().expect("no list").len(), 4);
}

#[test]
fn removed_defaults_come_back_only_to_an_emptied_list() {
    let mut db = Db::new_in_memory().expect("no database");
    db.remove_blocked_process("calc.exe").expect("not removed");
    db.remove_blocked_process("calc.exe").expect("not removed");
    db.fill(Ok(2)).expect("not filled");
    let mut list = db.get_blocked_processes().expect("no list");
    list.sort();
    assert_eq!(list, vec!["mspaint.exe", "notepad.exe"]);
    db.remove_blocked_process("mspaint.exe").expect("not removed");
    db.remove_blocked_process("notepad.exe").expect("not removed");
    assert!(db.get_blocked_processes().expect("no list").is_empty());
    db.fill(Ok(0)).expect("not filled");
    let mut list = db.get_blocked_processes().expect("no list");
    list.sort();
    assert_eq!(list, vec!["calc.exe", "mspaint.exe", "notepad.exe"]);
}

#[test]
fn names_are_kept_in_their_case() {
    let mut db = Db::new_in_memory().expect("no database");
    db.add_blocked_process("A.exe").expect("not added");
    db.add_blocked_process("a.exe").expect("not added");
    assert_eq!(db.get_blocked_processes().expect("no list").len(), 5);
    db.remove_blocked_process("A.exe").expect("not removed");
    let list = db.get_blocked_processes().expect("no list");
    assert!(list.contains(&"a.exe".to_string()));
    assert!(!list.contains(&"A.exe".to_string()));
}

#[test]
fn the_last_password_is_the_only_one() {
    let mut db = Db::new_in_memory().expect("no database");
    for (set, earlier) in [("one", "two"), ("two", "one"), ("", "two")] {
        db.set_master_password(set).expect("no password");
        assert!(db.verify_password(set));
        assert!(!db.verify_password(earlier));
        let digest = db.hash_password(set);
        assert!(db.verify_hash(&format!("  {}\n", digest.to_uppercase())));
        assert!(!db.verify_hash(&db.hash_password(earlier)));
    }
}
