//! The SQLite calls behind the policy database.
//!
//! Of every connection it is stated which statements it was given and whether
//! they succeeded. What is stated of rows holds of a connection to a database
//! that no other connection can reach and that the statements below have
//! filled, such as an in-memory one. Another process may change a database file
//! between two calls, so of the rows of a file nothing is stated here.

use vstd::prelude::*;

use crate::text;

use rusqlite::Connection;
use rusqlite::Error;

verus! {

/// A connection to a database.
#[verifier::external_type_specification]
#[verifier::external_body]
pub struct ExConnection(rusqlite::Connection);

/// What went wrong in a call.
#[verifier::external_type_specification]
#[verifier::external_body]
pub struct ExError(rusqlite::Error);

/// No other connection can reach the database, and there is nothing in it but
/// what the statements below have put there.
pub uninterp spec fn is_private(conn: Connection) -> bool;

/// The names in the table `blocked_processes`; none while there is no table.
pub uninterp spec fn name_rows(conn: Connection) -> Set<Seq<char>>;

/// The values in the table `config` by their keys; none while there is no
/// table.
pub uninterp spec fn config_rows(conn: Connection) -> Map<Seq<char>, Seq<char>>;

/// The statements that were given to the connection so far to set the database
/// up or to change it, each with its text argument and with whether it
/// succeeded.
pub uninterp spec fn executed(conn: Connection) -> Seq<(Seq<char>, Option<Seq<char>>, bool)>;

/// The text of an optional argument.
pub open spec fn arg_text(arg: Option<&str>) -> Option<Seq<char>> {
    match arg {
        Some(t) => Some(t@),
        None => None,
    }
}

/// The database holds no rows.
pub open spec fn has_no_rows(conn: Connection) -> bool {
    name_rows(conn) == Set::<Seq<char>>::empty() && config_rows(conn) == Map::<
        Seq<char>,
        Seq<char>,
    >::empty()
}

/// Creates the table of settings.
pub const CREATE_CONFIG: &'static str = "CREATE TABLE IF NOT EXISTS config (key TEXT PRIMARY KEY, value TEXT NOT NULL)";

/// Creates the table of blocked processes.
pub const CREATE_NAMES: &'static str = "CREATE TABLE IF NOT EXISTS blocked_processes (name TEXT PRIMARY KEY)";

/// Inserts a name that is not there yet.
pub const INSERT_NAME: &'static str = "INSERT INTO blocked_processes (name) VALUES (?1)";

/// Inserts a name unless it is there.
pub const ADD_NAME: &'static str = "INSERT OR IGNORE INTO blocked_processes (name) VALUES (?1)";

/// Deletes a name.
pub const REMOVE_NAME: &'static str = "DELETE FROM blocked_processes WHERE name = ?1";

/// Stores the digest of the master password.
pub const SET_PASSWORD: &'static str = "INSERT OR REPLACE INTO config (key, value) VALUES ('master_password', ?1)";

/// Counts the names.
pub const COUNT_NAMES: &'static str = "SELECT COUNT(*) FROM blocked_processes";

/// Selects the names.
pub const SELECT_NAMES: &'static str = "SELECT name FROM blocked_processes";

/// Selects the digest of the master password.
pub const SELECT_PASSWORD: &'static str = "SELECT value FROM config WHERE key = 'master_password'";

/// The key of the master password in the table `config`.
pub open spec fn password_key() -> Seq<char> {
    "master_password"@
}

/// A statement that creates a table.
pub open spec fn creates(sql: Seq<char>) -> bool {
    sql == CREATE_CONFIG@ || sql == CREATE_NAMES@
}

/// A statement that changes rows, by the one text that it is given.
pub open spec fn changes(sql: Seq<char>) -> bool {
    sql == INSERT_NAME@ || sql == ADD_NAME@ || sql == REMOVE_NAME@ || sql == SET_PASSWORD@
}

/// The names after a statement has run.
pub open spec fn names_after(sql: Seq<char>, arg: Seq<char>, names: Set<Seq<char>>) -> Set<
    Seq<char>,
> {
    if sql == INSERT_NAME@ || sql == ADD_NAME@ {
        names.insert(arg)
    } else if sql == REMOVE_NAME@ {
        names.remove(arg)
    } else {
        names
    }
}

/// The settings after a statement has run.
pub open spec fn config_after(
    sql: Seq<char>,
    arg: Seq<char>,
    config: Map<Seq<char>, Seq<char>>,
) -> Map<Seq<char>, Seq<char>> {
    if sql == SET_PASSWORD@ {
        config.insert(password_key(), arg)
    } else {
        config
    }
}

/// The rows have changed as the statement says.
pub open spec fn changed_by(
    before: Connection,
    after: Connection,
    sql: Seq<char>,
    arg: Seq<char>,
) -> bool {
    &&& name_rows(after) == names_after(sql, arg, name_rows(before))
    &&& config_rows(after) == config_after(sql, arg, config_rows(before))
}

/// The rows are the same.
pub open spec fn same_rows(before: Connection, after: Connection) -> bool {
    name_rows(after) == name_rows(before) && config_rows(after) == config_rows(before)
}

/// What each statement does, one by one.
pub proof fn lemma_effects(
    arg: Seq<char>,
    names: Set<Seq<char>>,
    config: Map<Seq<char>, Seq<char>>,
)
    ensures
        names_after(INSERT_NAME@, arg, names) == names.insert(arg),
        config_after(INSERT_NAME@, arg, config) == config,
        names_after(ADD_NAME@, arg, names) == names.insert(arg),
        config_after(ADD_NAME@, arg, config) == config,
        names_after(REMOVE_NAME@, arg, names) == names.remove(arg),
        config_after(REMOVE_NAME@, arg, config) == config,
        names_after(SET_PASSWORD@, arg, names) == names,
        config_after(SET_PASSWORD@, arg, config) == config.insert(password_key(), arg),
{
    reveal_strlit("INSERT INTO blocked_processes (name) VALUES (?1)");
    assert(INSERT_NAME@.len() == 48);
    reveal_strlit("INSERT OR IGNORE INTO blocked_processes (name) VALUES (?1)");
    assert(ADD_NAME@.len() == 58);
    reveal_strlit("DELETE FROM blocked_processes WHERE name = ?1");
    assert(REMOVE_NAME@.len() == 45);
    reveal_strlit("INSERT OR REPLACE INTO config (key, value) VALUES ('master_password', ?1)");
    assert(SET_PASSWORD@.len() == 73);
}

/// What a query for the master password's digest may give: the stored value
/// or, where there is none or it could not be read, nothing.
pub open spec fn value_read(config: Map<Seq<char>, Seq<char>>, read: Option<Seq<char>>) -> bool {
    read matches Some(t) ==> config.contains_key(password_key()) && config[password_key()] == t
}

/// What a query for the names may give, row by row: each name at most once,
/// in any order, `None` for a row that could not be read; where every row was
/// read, all the names.
pub open spec fn rows_read(names: Set<Seq<char>>, rows: Seq<Option<Seq<char>>>) -> bool {
    &&& forall|i: int|
        0 <= i < rows.len() && #[trigger] rows[i] is Some ==> names.contains(rows[i]->0)
    &&& forall|i: int, j: int|
        0 <= i < j < rows.len() && #[trigger] rows[i] is Some && #[trigger] rows[j] is Some
            ==> rows[i] != rows[j]
    &&& all_read(rows) ==> forall|n: Seq<char>| #[trigger]
        names.contains(n) ==> rows.contains(Some(n))
}

/// Every row could be read.
pub open spec fn all_read(rows: Seq<Option<Seq<char>>>) -> bool {
    forall|i: int| 0 <= i < rows.len() ==> #[trigger] rows[i] is Some
}

/// The texts of optional strings.
pub open spec fn row_texts(rows: Seq<Option<String>>) -> Seq<Option<Seq<char>>> {
    rows.map_values(|r: Option<String>| text::text_of(r))
}

/// `Connection::open_in_memory`: a database that this connection alone can
/// reach, without rows, and to which no statement was given yet.
#[verifier::external_body]
pub(crate) fn open_in_memory() -> (r: Result<Connection, Error>)
    ensures
        r matches Ok(conn) ==> is_private(conn) && has_no_rows(conn) && executed(conn).len() == 0,
{
    Connection::open_in_memory()
}

/// `Connection::execute`: the statement is given to the database, and the
/// result tells whether it succeeded. A statement that succeeds has changed the
/// rows as its text says; SQLite carries a statement out as a whole or not at
/// all, so that one that fails leaves them as they were or as if it had
/// succeeded. When a statement succeeds is left open.
#[verifier::external_body]
pub(crate) fn execute(conn: &mut Connection, sql: &str, arg: Option<&str>) -> (r: Result<(), Error>)
    requires
        creates(sql@) && arg is None || changes(sql@) && arg is Some,
    ensures
        executed(*final(conn)) == executed(*old(conn)).push((sql@, arg_text(arg), r is Ok)),
        is_private(*final(conn)) == is_private(*old(conn)),
        is_private(*old(conn)) && arg is None ==> name_rows(*final(conn)) == name_rows(*old(conn))
            && config_rows(*final(conn)) == config_rows(*old(conn)),
        is_private(*old(conn)) && r is Ok && arg is Some ==> changed_by(
            *old(conn),
            *final(conn),
            sql@,
            arg->0@,
        ),
        is_private(*old(conn)) && r is Err && arg is Some ==> changed_by(
            *old(conn),
            *final(conn),
            sql@,
            arg->0@,
        ) || same_rows(*old(conn), *final(conn)),
{
    conn.execute(sql, rusqlite::params_from_iter(arg)).map(|_changed| ())
}

/// `Connection::query_row` on `SELECT COUNT(*)`: the statement is given to the
/// database and changes nothing; where it succeeds, it tells the number of
/// names. When it succeeds is left open.
#[verifier::external_body]
pub(crate) fn query_count(conn: &mut Connection, sql: &str) -> (r: Result<i64, Error>)
    requires
        sql@ == COUNT_NAMES@,
    ensures
        executed(*final(conn)) == executed(*old(conn)).push((sql@, None, r is Ok)),
        is_private(*final(conn)) == is_private(*old(conn)),
        is_private(*old(conn)) ==> same_rows(*old(conn), *final(conn)),
        is_private(*old(conn)) ==> (r matches Ok(n) ==> name_rows(*final(conn)).finite() && n
            == name_rows(*final(conn)).len()),
{
    conn.query_row(sql, [], |row| row.get(0))
}

/// `Connection::query_row` on the one value of the master password: the
/// stored value, and an error where there is none.
#[verifier::external_body]
pub(crate) fn query_value(conn: &Connection, sql: &str) -> (r: Result<String, Error>)
    requires
        sql@ == SELECT_PASSWORD@,
    ensures
        is_private(*conn) ==> (r matches Ok(t) ==> value_read(config_rows(*conn), Some(t@))),
{
    conn.query_row(sql, [], |row| row.get(0))
}

/// `Statement::query_map` over a prepared `SELECT name`: the rows in the order
/// in which SQLite gives them, `None` for one that could not be read.
#[verifier::external_body]
pub(crate) fn query_rows(conn: &Connection, sql: &str) -> (r: Result<Vec<Option<String>>, Error>)
    requires
        sql@ == SELECT_NAMES@,
    ensures
        is_private(*conn) ==> (r matches Ok(rows) ==> rows_read(
            name_rows(*conn),
            row_texts(rows@),
        )),
{
    let mut statement = conn.prepare(sql)?;
    let rows = statement.query_map([], |row| row.get(0))?;
    Ok(rows.map(|row| row.ok()).collect())
}

/// `Display` of `rusqlite::Error`: the wording is SQLite's and is left open.
#[verifier::external_body]
pub(crate) fn error_text(e: &Error) -> (r: String) {
    e.to_string()
}

/// The statements by their texts.
pub proof fn law_statements()
    ensures
        CREATE_CONFIG@
            == "CREATE TABLE IF NOT EXISTS config (key TEXT PRIMARY KEY, value TEXT NOT NULL)"@,
        CREATE_NAMES@ == "CREATE TABLE IF NOT EXISTS blocked_processes (name TEXT PRIMARY KEY)"@,
        COUNT_NAMES@ == "SELECT COUNT(*) FROM blocked_processes"@,
        INSERT_NAME@ == "INSERT INTO blocked_processes (name) VALUES (?1)"@,
        ADD_NAME@ == "INSERT OR IGNORE INTO blocked_processes (name) VALUES (?1)"@,
        REMOVE_NAME@ == "DELETE FROM blocked_processes WHERE name = ?1"@,
        SET_PASSWORD@
            == "INSERT OR REPLACE INTO config (key, value) VALUES ('master_password', ?1)"@,
        SELECT_PASSWORD@ == "SELECT value FROM config WHERE key = 'master_password'"@,
        SELECT_NAMES@ == "SELECT name FROM blocked_processes"@,
{
}

} // verus!
