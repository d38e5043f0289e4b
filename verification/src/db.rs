//! The policy database: which processes are blocked, and the master password.

use vstd::prelude::*;

use crate::digest;
use crate::digest::hash_text;
use crate::sqlite;
use crate::text;
use crate::text::eq_ignore_ascii_case;
use crate::text::trim;

use rusqlite::Connection;
use rusqlite::Error;

verus! {

/// Why a call to the database failed.
#[derive(Debug)]
pub struct DbError {
    /// SQLite's own wording.
    pub text: String,
}

/// Why a database could not be set up, and the connection to it, where there is
/// one.
#[derive(Debug)]
pub struct SetUpError {
    pub conn: Option<Connection>,
    pub error: DbError,
}

/// The policy database.
pub struct Db {
    conn: Connection,
}

/// The processes that are blocked before anything else is configured.
pub open spec fn default_names() -> Set<Seq<char>> {
    set!["calc.exe"@, "notepad.exe"@, "mspaint.exe"@]
}

/// The names of the rows that could be read, in their order.
pub open spec fn readable(rows: Seq<Option<Seq<char>>>) -> Seq<Seq<char>>
    decreases rows.len(),
{
    if rows.len() == 0 {
        seq![]
    } else {
        match rows.last() {
            Some(t) => readable(rows.drop_last()).push(t),
            None => readable(rows.drop_last()),
        }
    }
}

/// The password belongs to the stored digest.
pub open spec fn password_accepted(stored: Option<Seq<char>>, password: Seq<char>) -> bool {
    stored == Some(digest::password_hash(password))
}

/// The digest is the stored one, white space around them and the case of
/// their letters aside.
pub open spec fn hash_accepted(stored: Option<Seq<char>>, hash: Seq<char>) -> bool {
    stored matches Some(t) && text::same_ignoring_case(text::trimmed(t), text::trimmed(hash))
}

/// What is given to a new database to set it up, in this order: the statements,
/// each with its text argument.
pub open spec fn init_script() -> Seq<(Seq<char>, Option<Seq<char>>)> {
    seq![
        (sqlite::CREATE_CONFIG@, None),
        (sqlite::CREATE_NAMES@, None),
        (sqlite::COUNT_NAMES@, None),
        (sqlite::INSERT_NAME@, Some("calc.exe"@)),
        (sqlite::INSERT_NAME@, Some("notepad.exe"@)),
        (sqlite::INSERT_NAME@, Some("mspaint.exe"@)),
    ]
}

/// `n` statements of the script from the one at `from` on, as they were given:
/// all but the last succeeded, and `last` tells whether that one did.
pub open spec fn script_run(from: int, n: int, last: bool) -> Seq<
    (Seq<char>, Option<Seq<char>>, bool),
> {
    Seq::new(
        n as nat,
        |i: int| (init_script()[from + i].0, init_script()[from + i].1, i < n - 1 || last),
    )
}

/// The script was given from the statement at `from` on, up to the first one
/// that failed and no further than up to `to`; `last` tells whether all of them
/// succeeded.
pub open spec fn script_given(
    before: Seq<(Seq<char>, Option<Seq<char>>, bool)>,
    after: Seq<(Seq<char>, Option<Seq<char>>, bool)>,
    from: int,
    to: int,
    last: bool,
) -> bool {
    let n = after.len() - before.len();
    &&& 1 <= n <= to - from
    &&& after == before + script_run(from, n, last)
    &&& last ==> n == to - from
}

/// How setting up a database goes, by the statements that were given before and
/// after it: it fails exactly where a statement does, and it ends with the
/// count of the names or with the last of the default names.
pub open spec fn set_up(
    before: Seq<(Seq<char>, Option<Seq<char>>, bool)>,
    after: Seq<(Seq<char>, Option<Seq<char>>, bool)>,
    success: bool,
) -> bool {
    ||| script_given(before, after, 0, 6, success)
    ||| script_given(before, after, 0, 3, success)
}

/// The default names were all that was missing: where no process was blocked,
/// the default ones are now, as far as the set-up went; no other name has come
/// or gone.
pub open spec fn names_set_up(
    before: Set<Seq<char>>,
    after: Set<Seq<char>>,
    success: bool,
) -> bool {
    if before == Set::<Seq<char>>::empty() {
        after.subset_of(default_names()) && (success ==> after == default_names())
    } else {
        after == before
    }
}

/// The database behind a connection was set up, or setting it up has failed.
pub open spec fn is_set_up(before: Connection, after: Connection, success: bool) -> bool {
    &&& set_up(sqlite::executed(before), sqlite::executed(after), success)
    &&& sqlite::is_private(after) == sqlite::is_private(before)
    &&& sqlite::is_private(before) ==> {
        &&& sqlite::config_rows(after) == sqlite::config_rows(before)
        &&& names_set_up(sqlite::name_rows(before), sqlite::name_rows(after), success)
        &&& success ==> (script_given(
            sqlite::executed(before),
            sqlite::executed(after),
            0,
            6,
            true,
        ) <==> sqlite::name_rows(before) == Set::<Seq<char>>::empty())
    }
}

/// What a set-up of the database behind `conn` comes to: the database, or the
/// error with the connection.
pub open spec fn set_up_result(conn: Connection, r: Result<Db, SetUpError>) -> bool {
    match r {
        Ok(db) => is_set_up(conn, db.connection(), true),
        Err(e) => (e.conn matches Some(c) && is_set_up(conn, c, false)) && is_wording(
            e.error.text@,
        ),
    }
}

/// `text` is SQLite's wording of an error.
pub closed spec fn worded(e: Error, text: String) -> bool {
    call_ensures(sqlite::error_text, (&e,), text)
}

/// The text is SQLite's wording of some error.
pub open spec fn is_wording(text: Seq<char>) -> bool {
    exists|e: Error, t: String| #[trigger] worded(e, t) && t@ == text
}

/// `opened` is what opening a database in memory gave.
pub closed spec fn memory_given(opened: Result<Connection, Error>) -> bool {
    call_ensures(sqlite::open_in_memory, (), opened)
}

/// The texts of a list of strings.
pub open spec fn texts(list: Seq<String>) -> Seq<Seq<char>> {
    list.map_values(|s: String| s@)
}

impl Db {
    /// The connection to the database.
    pub closed spec fn connection(&self) -> Connection {
        self.conn
    }

    /// No other connection can reach the database, and there is nothing in it
    /// but what was put there by the methods below.
    pub open spec fn private(&self) -> bool {
        sqlite::is_private(self.connection())
    }

    /// The blocked processes.
    pub open spec fn names(&self) -> Set<Seq<char>> {
        sqlite::name_rows(self.connection())
    }

    /// The settings.
    pub open spec fn config(&self) -> Map<Seq<char>, Seq<char>> {
        sqlite::config_rows(self.connection())
    }

    /// The statements that were given to the database so far to set it up or to
    /// change it, each with its text argument and with whether it succeeded.
    pub open spec fn executed(&self) -> Seq<(Seq<char>, Option<Seq<char>>, bool)> {
        sqlite::executed(self.connection())
    }

    /// A read of the stored digest may give `read`.
    pub open spec fn may_read(&self, read: Option<Seq<char>>) -> bool {
        self.private() ==> sqlite::value_read(self.config(), read)
    }

    /// A read of the names may give `rows`.
    pub open spec fn may_list(&self, rows: Seq<Option<Seq<char>>>) -> bool {
        self.private() ==> sqlite::rows_read(self.names(), rows)
    }

    /// `read` is what a query for the names gave.
    pub closed spec fn rows_given(&self, read: Result<Vec<Option<String>>, Error>) -> bool {
        call_ensures(sqlite::query_rows, (&self.conn, sqlite::SELECT_NAMES), read)
    }

    /// `read` is what a query for the stored digest gave.
    pub closed spec fn value_given(&self, read: Result<String, Error>) -> bool {
        call_ensures(sqlite::query_value, (&self.conn, sqlite::SELECT_PASSWORD), read)
    }

    fn run(&mut self, sql: &str, arg: Option<&str>) -> (r: Result<(), DbError>)
        requires
            sqlite::creates(sql@) && arg is None || sqlite::changes(sql@) && arg is Some,
        ensures
            final(self).executed() == old(self).executed().push(
                (sql@, sqlite::arg_text(arg), r is Ok),
            ),
            final(self).private() == old(self).private(),
            old(self).private() && arg is None ==> final(self).names() == old(self).names()
                && final(self).config() == old(self).config(),
            old(self).private() && r is Ok && arg is Some ==> final(self).names()
                == sqlite::names_after(sql@, arg->0@, old(self).names()) && final(self).config()
                == sqlite::config_after(sql@, arg->0@, old(self).config()),
            old(self).private() && r is Err && arg is Some ==> final(self).names()
                == sqlite::names_after(sql@, arg->0@, old(self).names()) && final(self).config()
                == sqlite::config_after(sql@, arg->0@, old(self).config()) || final(self).names()
                == old(self).names() && final(self).config() == old(self).config(),
            r matches Err(e) ==> is_wording(e.text@),
    {
        done_or_error(sqlite::execute(&mut self.conn, sql, arg))
    }

    /// Goes on with the set-up once the names were counted: where there are
    /// none, blocks the default ones.
    pub fn fill(&mut self, counted: Result<i64, Error>) -> (r: Result<(), DbError>)
        ensures
            final(self).private() == old(self).private(),
            match counted {
                Err(_) => r is Err && *final(self) == *old(self),
                Ok(n) => if n != 0 {
                    r is Ok && *final(self) == *old(self)
                } else {
                    script_given(old(self).executed(), final(self).executed(), 3, 6, r is Ok)
                },
            },
            old(self).private() ==> final(self).config() == old(self).config(),
            old(self).private() ==> old(self).names().subset_of(final(self).names())
                && final(self).names().subset_of(old(self).names().union(default_names())),
            old(self).private() && r is Ok && (counted matches Ok(n) && n == 0)
                ==> final(self).names() == old(self).names().union(default_names()),
            r matches Err(e) ==> is_wording(e.text@),
            counted matches Err(e) ==> (r matches Err(d) && worded(e, d.text)),
    {
        let count: i64 = match counted {
            Ok(n) => n,
            Err(e) => {
                let text = sqlite::error_text(&e);
                assert(worded(e, text));
                return Err(DbError { text });
            },
        };
        if count != 0 {
            return Ok(());
        }
        proof {
            sqlite::lemma_effects("calc.exe"@, self.names(), self.config());
        }
        let first = self.run(sqlite::INSERT_NAME, Some("calc.exe"));
        assert(self.executed() =~= old(self).executed() + script_run(3, 1, first is Ok));
        first?;
        proof {
            sqlite::lemma_effects("notepad.exe"@, self.names(), self.config());
        }
        let second = self.run(sqlite::INSERT_NAME, Some("notepad.exe"));
        assert(self.executed() =~= old(self).executed() + script_run(3, 2, second is Ok));
        second?;
        proof {
            sqlite::lemma_effects("mspaint.exe"@, self.names(), self.config());
        }
        let third = self.run(sqlite::INSERT_NAME, Some("mspaint.exe"));
        assert(self.executed() =~= old(self).executed() + script_run(3, 3, third is Ok));
        assert(self.private() && third is Ok ==> self.names() =~= old(self).names().union(
            default_names(),
        ));
        third
    }

    /// Creates the tables and, where no process is blocked yet, blocks the
    /// default ones.
    fn init(&mut self) -> (r: Result<(), DbError>)
        ensures
            is_set_up(old(self).connection(), final(self).connection(), r is Ok),
            r matches Err(e) ==> is_wording(e.text@),
    {
        let config = self.run(sqlite::CREATE_CONFIG, None);
        assert(self.executed() =~= old(self).executed() + script_run(0, 1, config is Ok));
        config?;
        let tables = self.run(sqlite::CREATE_NAMES, None);
        assert(self.executed() =~= old(self).executed() + script_run(0, 2, tables is Ok));
        tables?;
        let counted = sqlite::query_count(&mut self.conn, sqlite::COUNT_NAMES);
        assert(self.executed() =~= old(self).executed() + script_run(0, 3, counted is Ok));
        let ghost names = self.names();
        let ghost given = self.executed();
        let ghost none = counted is Ok && counted->Ok_0 == 0;
        proof {
            if self.private() && counted is Ok {
                assert(none <==> names =~= Set::<Seq<char>>::empty()) by {
                    if names.len() == 0 {
                        assert(names =~= Set::<Seq<char>>::empty());
                    }
                }
            }
        }
        let r = self.fill(counted);
        proof {
            if none {
                let n = self.executed().len() - given.len();
                assert(self.executed() =~= old(self).executed() + script_run(0, 3 + n, r is Ok));
                if self.private() {
                    assert(names.union(default_names()) =~= default_names());
                }
            }
        }
        r
    }

    /// The policy database behind an open connection.
    pub fn with_connection(conn: Connection) -> (r: Result<Db, SetUpError>)
        ensures
            set_up_result(conn, r),
    {
        let mut db = Db { conn };
        match db.init() {
            Ok(_) => Ok(db),
            Err(error) => Err(SetUpError { conn: Some(db.conn), error }),
        }
    }

    /// The policy database behind a connection that was to be opened.
    pub fn new(opened: Result<Connection, Error>) -> (r: Result<Db, SetUpError>)
        ensures
            match opened {
                Ok(conn) => set_up_result(conn, r),
                Err(error) => r matches Err(e) && e.conn is None && worded(error, e.error.text),
            },
    {
        match opened {
            Ok(conn) => Db::with_connection(conn),
            Err(e) => {
                let text = sqlite::error_text(&e);
                assert(worded(e, text));
                Err(SetUpError { conn: None, error: DbError { text } })
            },
        }
    }

    /// A policy database in memory, for tests. It is there unless SQLite cannot
    /// open it or fails at a statement of its set-up.
    pub fn new_in_memory() -> (r: Result<Db, DbError>)
        ensures
            r matches Ok(db) ==> db.private() && db.names() == default_names() && db.config()
                == Map::<Seq<char>, Seq<char>>::empty(),
            r matches Ok(db) ==> forall|read: Option<Seq<char>>| #[trigger]
                db.may_read(read) ==> read is None,
            r matches Ok(db) ==> db.executed() == script_run(0, 6, true),
            exists|opened: Result<Connection, Error>, set_up: Result<Db, SetUpError>|
                {
                    &&& memory_given(opened)
                    &&& #[trigger] call_ensures(Db::new, (opened,), set_up)
                    &&& match set_up {
                        Ok(db) => r == Ok::<Db, DbError>(db),
                        Err(e) => r == Err::<Db, DbError>(e.error),
                    }
                },
    {
        let opened = sqlite::open_in_memory();
        let ghost given = opened;
        assert(memory_given(given));
        proof {
            if opened is Ok {
                let fresh = sqlite::executed(opened->Ok_0);
                assert(fresh + script_run(0, 6, true) =~= script_run(0, 6, true));
            }
        }
        let set_up = Db::new(opened);
        assert(call_ensures(Db::new, (given,), set_up));
        match set_up {
            Ok(db) => Ok(db),
            Err(e) => Err(e.error),
        }
    }

    /// Blocks a process; one that is blocked stays so.
    pub fn add_blocked_process(&mut self, name: &str) -> (r: Result<(), DbError>)
        ensures
            r matches Err(e) ==> is_wording(e.text@),
            final(self).executed() == old(self).executed().push(
                (sqlite::ADD_NAME@, Some(name@), r is Ok),
            ),
            final(self).private() == old(self).private(),
            old(self).private() ==> final(self).config() == old(self).config(),
            old(self).private() && r is Ok ==> final(self).names() == old(self).names().insert(
                name@,
            ),
            old(self).private() && r is Err ==> final(self).names() == old(self).names()
                || final(self).names() == old(self).names().insert(name@),
    {
        proof {
            sqlite::lemma_effects(name@, self.names(), self.config());
        }
        self.run(sqlite::ADD_NAME, Some(name))
    }

    /// Unblocks a process; one that is not blocked stays so.
    pub fn remove_blocked_process(&mut self, name: &str) -> (r: Result<(), DbError>)
        ensures
            r matches Err(e) ==> is_wording(e.text@),
            final(self).executed() == old(self).executed().push(
                (sqlite::REMOVE_NAME@, Some(name@), r is Ok),
            ),
            final(self).private() == old(self).private(),
            old(self).private() ==> final(self).config() == old(self).config(),
            old(self).private() && r is Ok ==> final(self).names() == old(self).names().remove(
                name@,
            ),
            old(self).private() && r is Err ==> final(self).names() == old(self).names()
                || final(self).names() == old(self).names().remove(name@),
    {
        proof {
            sqlite::lemma_effects(name@, self.names(), self.config());
        }
        self.run(sqlite::REMOVE_NAME, Some(name))
    }

    /// The blocked processes, each once, in no particular order; a row that
    /// cannot be read is left out.
    pub fn get_blocked_processes(&self) -> (r: Result<Vec<String>, DbError>)
        ensures
            r matches Ok(list) ==> exists|rows: Seq<Option<Seq<char>>>| #[trigger]
                self.may_list(rows) && texts(list@) == readable(rows),
            exists|read: Result<Vec<Option<String>>, Error>| #[trigger]
                self.rows_given(read) && match read {
                    Ok(rows) => r matches Ok(list) && texts(list@) == readable(
                        sqlite::row_texts(rows@),
                    ),
                    Err(e) => r matches Err(d) && worded(e, d.text),
                },
    {
        let read = sqlite::query_rows(&self.conn, sqlite::SELECT_NAMES);
        proof {
            assert(self.rows_given(read));
            if read is Ok {
                assert(self.may_list(sqlite::row_texts(read->Ok_0@)));
            }
        }
        names_or_error(read)
    }

    /// Makes `password` the master password.
    pub fn set_master_password(&mut self, password: &str) -> (r: Result<(), DbError>)
        ensures
            r matches Err(e) ==> is_wording(e.text@),
            final(self).executed() == old(self).executed().push(
                (sqlite::SET_PASSWORD@, Some(digest::password_hash(password@)), r is Ok),
            ),
            final(self).private() == old(self).private(),
            old(self).private() ==> final(self).names() == old(self).names(),
            old(self).private() && r is Ok ==> final(self).config() == old(self).config().insert(
                sqlite::password_key(),
                digest::password_hash(password@),
            ),
            old(self).private() && r is Err ==> final(self).config() == old(self).config()
                || final(self).config() == old(self).config().insert(
                sqlite::password_key(),
                digest::password_hash(password@),
            ),
    {
        let hash = hash_text(password);
        proof {
            sqlite::lemma_effects(hash@, self.names(), self.config());
        }
        self.run(sqlite::SET_PASSWORD, Some(hash.as_str()))
    }

    /// The stored digest of the master password, where it can be read.
    pub fn stored_hash(&self) -> (r: Option<String>)
        ensures
            self.may_read(text::text_of(r)),
            exists|read: Result<String, Error>| #[trigger]
                self.value_given(read) && match read {
                    Ok(value) => r == Some(value),
                    Err(_) => r is None,
                },
    {
        let read = sqlite::query_value(&self.conn, sqlite::SELECT_PASSWORD);
        assert(self.value_given(read));
        value_or_nothing(read)
    }

    /// Whether `password` is the master password, as far as the stored digest
    /// can be read; without one no password is accepted.
    pub fn verify_password(&self, password: &str) -> (r: bool)
        ensures
            exists|read: Option<Seq<char>>| #[trigger]
                self.may_read(read) && r == password_accepted(read, password@),
            exists|read: Option<String>| #[trigger]
                call_ensures(Db::stored_hash, (self,), read) && r == (read matches Some(t) && t@
                    == digest::password_hash(password@)),
    {
        let stored = self.stored_hash();
        accepts_password(&stored, password)
    }

    /// Whether `hash_to_check` is the stored digest, as far as that can be
    /// read.
    pub fn verify_hash(&self, hash_to_check: &str) -> (r: bool)
        ensures
            exists|read: Option<Seq<char>>| #[trigger]
                self.may_read(read) && r == hash_accepted(read, hash_to_check@),
            exists|read: Option<String>| #[trigger]
                call_ensures(Db::stored_hash, (self,), read) && r == (read matches Some(t)
                    && text::same_ignoring_case(text::trimmed(t@), text::trimmed(hash_to_check@))),
    {
        let stored = self.stored_hash();
        accepts_hash(&stored, hash_to_check)
    }

    /// What is stored for a password.
    pub fn hash_password(&self, password: &str) -> (r: String)
        ensures
            r@ == digest::password_hash(password@),
    {
        hash_text(password)
    }
}

/// How a statement ended: done, or the wording of why not.
pub fn done_or_error(result: Result<(), Error>) -> (r: Result<(), DbError>)
    ensures
        r is Ok <==> result is Ok,
        result matches Err(e) ==> (r matches Err(d) && worded(e, d.text)),
{
    match result {
        Ok(_) => Ok(()),
        Err(e) => {
            let text = sqlite::error_text(&e);
            assert(worded(e, text));
            Err(DbError { text })
        },
    }
}

/// What a query for the names comes to: the names of the rows that could be
/// read, in their order, or the wording of why there are no rows.
pub fn names_or_error(read: Result<Vec<Option<String>>, Error>) -> (r: Result<
    Vec<String>,
    DbError,
>)
    ensures
        match read {
            Ok(rows) => r matches Ok(list) && texts(list@) == readable(sqlite::row_texts(rows@)),
            Err(e) => r matches Err(d) && worded(e, d.text),
        },
{
    match read {
        Ok(rows) => Ok(readable_names(rows)),
        Err(e) => {
            let text = sqlite::error_text(&e);
            assert(worded(e, text));
            Err(DbError { text })
        },
    }
}

/// What a query for a value comes to: the value, or nothing where it failed.
pub fn value_or_nothing(read: Result<String, Error>) -> (r: Option<String>)
    ensures
        match read {
            Ok(value) => r == Some(value),
            Err(_) => r is None,
        },
{
    match read {
        Ok(value) => Some(value),
        Err(_) => None,
    }
}

/// The names of the rows that could be read, in their order.
pub fn readable_names(rows: Vec<Option<String>>) -> (r: Vec<String>)
    ensures
        texts(r@) == readable(sqlite::row_texts(rows@)),
{
    let mut list: Vec<String> = Vec::new();
    let ghost all = sqlite::row_texts(rows@);
    let mut i: usize = 0;
    while i < rows.len()
        invariant
            i <= rows@.len(),
            all == sqlite::row_texts(rows@),
            texts(list@) == readable(all.take(i as int)),
        decreases rows@.len() - i,
    {
        assert(all.take(i + 1).drop_last() == all.take(i as int));
        assert(all.take(i + 1).last() == text::text_of(rows@[i as int]));
        match &rows[i] {
            Some(name) => {
                let ghost before = list@;
                list.push(name.clone());
                assert(texts(list@) == texts(before).push(name@));
            },
            None => {},
        }
        i = i + 1;
    }
    assert(all.take(i as int) == all);
    list
}

/// Whether the password belongs to the stored digest.
pub fn accepts_password(stored: &Option<String>, password: &str) -> (r: bool)
    ensures
        r == password_accepted(text::text_of(*stored), password@),
{
    let hash = hash_text(password);
    match stored {
        Some(t) => *t == hash,
        None => false,
    }
}

/// Whether the digest is the stored one, white space around them and the case
/// of their letters aside.
pub fn accepts_hash(stored: &Option<String>, hash: &str) -> (r: bool)
    ensures
        r == hash_accepted(text::text_of(*stored), hash@),
{
    match stored {
        Some(t) => eq_ignore_ascii_case(trim(t.as_str()).as_str(), trim(hash).as_str()),
        None => false,
    }
}

// ---------------------------------------------------------------------------
// Laws
// ---------------------------------------------------------------------------

/// What a query for the names gives of a private database.
pub proof fn lemma_rows_given(db: Db, read: Result<Vec<Option<String>>, Error>)
    requires
        db.private(),
        db.rows_given(read),
        read is Ok,
    ensures
        sqlite::rows_read(db.names(), sqlite::row_texts(read->Ok_0@)),
{
}

/// What a query for the stored digest gives of a private database.
pub proof fn lemma_value_given(db: Db, read: Result<String, Error>)
    requires
        db.private(),
        db.value_given(read),
        read is Ok,
    ensures
        db.config().contains_key("master_password"@),
        db.config()["master_password"@] == read->Ok_0@,
{
}

/// A list holds the names of the rows that could be read, and no other.
pub proof fn law_list_holds_the_rows_read(rows: Seq<Option<Seq<char>>>, name: Seq<char>)
    ensures
        readable(rows).contains(name) <==> rows.contains(Some(name)),
{
    lemma_readable_from_rows(rows);
}

/// A list keeps the order of the rows, and leaves out those that could not be
/// read.
pub proof fn law_list_keeps_the_order(a: Seq<Option<Seq<char>>>, b: Seq<Option<Seq<char>>>)
    ensures
        readable(a + b) == readable(a) + readable(b),
        forall|t: Seq<char>| #[trigger] readable(seq![Some(t)]) == seq![t],
        readable(seq![None::<Seq<char>>]) == Seq::<Seq<char>>::empty(),
    decreases b.len(),
{
    reveal_with_fuel(readable, 2);
    assert forall|t: Seq<char>| #[trigger] readable(seq![Some(t)]) == seq![t] by {
        assert(seq![Some(t)].drop_last() =~= Seq::<Option<Seq<char>>>::empty());
    }
    assert(seq![None::<Seq<char>>].drop_last() =~= Seq::<Option<Seq<char>>>::empty());
    if b.len() == 0 {
        assert(a + b =~= a);
    } else {
        assert((a + b).drop_last() =~= a + b.drop_last());
        law_list_keeps_the_order(a, b.drop_last());
    }
}

/// Where a list holds a name, a row does.
proof fn lemma_readable_from_rows(rows: Seq<Option<Seq<char>>>)
    ensures
        forall|n: Seq<char>| #[trigger]
            readable(rows).contains(n) <==> rows.contains(Some(n)),
    decreases rows.len(),
{
    if rows.len() > 0 {
        let rest = rows.drop_last();
        lemma_readable_from_rows(rest);
        assert forall|n: Seq<char>| #[trigger]
            readable(rows).contains(n) <==> rows.contains(Some(n)) by {
            if readable(rows).contains(n) {
                let i = choose|i: int| 0 <= i < readable(rows).len() && readable(rows)[i] == n;
                if i < readable(rest).len() {
                    assert(readable(rest)[i] == n);
                    assert(readable(rest).contains(n));
                    let j = choose|j: int| 0 <= j < rest.len() && rest[j] == Some(n);
                    assert(rows[j] == Some(n));
                } else {
                    assert(rows[rows.len() - 1] == Some(n));
                }
            }
            if rows.contains(Some(n)) {
                let j = choose|j: int| 0 <= j < rows.len() && rows[j] == Some(n);
                if j < rest.len() {
                    assert(rest[j] == Some(n));
                    assert(rest.contains(Some(n)));
                    assert(readable(rest).contains(n));
                    let i = choose|i: int| 0 <= i < readable(rest).len() && readable(rest)[i] == n;
                    assert(readable(rows)[i] == n);
                } else {
                    assert(readable(rows).last() == n);
                }
            }
        }
    }
}

/// A list has no name twice where no two rows hold the same.
proof fn lemma_readable_distinct(rows: Seq<Option<Seq<char>>>)
    requires
        forall|i: int, j: int|
            0 <= i < j < rows.len() && #[trigger] rows[i] is Some && #[trigger] rows[j] is Some
                ==> rows[i] != rows[j],
    ensures
        readable(rows).no_duplicates(),
    decreases rows.len(),
{
    if rows.len() > 0 {
        let rest = rows.drop_last();
        assert forall|i: int, j: int|
            0 <= i < j < rest.len() && #[trigger] rest[i] is Some && #[trigger] rest[j] is Some
            implies rest[i] != rest[j] by {
            assert(rows[i] is Some && rows[j] is Some);
        }
        lemma_readable_distinct(rest);
        if let Some(t) = rows.last() {
            lemma_readable_from_rows(rest);
            if readable(rest).contains(t) {
                let j = choose|j: int| 0 <= j < rest.len() && rest[j] == Some(t);
                assert(rows[j] == Some(t) && rows[rows.len() - 1] == Some(t));
            }
            assert(readable(rows) == readable(rest).push(t));
        }
    }
}

/// A list names blocked processes only, each once, and all of them where
/// every row could be read.
pub proof fn law_list_is_the_names(names: Set<Seq<char>>, rows: Seq<Option<Seq<char>>>)
    requires
        sqlite::rows_read(names, rows),
    ensures
        readable(rows).no_duplicates(),
        forall|n: Seq<char>| #[trigger] readable(rows).contains(n) ==> names.contains(n),
        sqlite::all_read(rows) ==> readable(rows).to_set() == names,
{
    lemma_readable_from_rows(rows);
    lemma_readable_distinct(rows);
    assert forall|n: Seq<char>| #[trigger] readable(rows).contains(n) implies names.contains(n) by {
        let j = choose|j: int| 0 <= j < rows.len() && rows[j] == Some(n);
        assert(rows[j] is Some);
    }
    if sqlite::all_read(rows) {
        assert forall|n: Seq<char>| #[trigger]
            readable(rows).to_set().contains(n) <==> names.contains(n) by {
            if names.contains(n) {
                assert(rows.contains(Some(n)));
                assert(readable(rows).contains(n));
            }
        }
        assert(readable(rows).to_set() =~= names);
    }
}

/// A process that was added is listed afterwards, as far as every row can be
/// read.
pub proof fn law_added_is_listed(
    names: Set<Seq<char>>,
    name: Seq<char>,
    rows: Seq<Option<Seq<char>>>,
)
    requires
        sqlite::rows_read(names.insert(name), rows),
        sqlite::all_read(rows),
    ensures
        readable(rows).contains(name),
{
    law_list_is_the_names(names.insert(name), rows);
    assert(readable(rows).to_set().contains(name));
}

/// A process that was removed is not listed afterwards.
pub proof fn law_removed_is_not_listed(
    names: Set<Seq<char>>,
    name: Seq<char>,
    rows: Seq<Option<Seq<char>>>,
)
    requires
        sqlite::rows_read(names.remove(name), rows),
    ensures
        !readable(rows).contains(name),
{
    law_list_is_the_names(names.remove(name), rows);
}

/// Adding a process adds it to the list and nothing else, and leaves a list that
/// holds it as it is; as far as every row can be read, before and after.
pub proof fn law_adding_adds_to_the_list(
    names: Set<Seq<char>>,
    name: Seq<char>,
    before: Seq<Option<Seq<char>>>,
    after: Seq<Option<Seq<char>>>,
)
    requires
        sqlite::rows_read(names, before) && sqlite::all_read(before),
        sqlite::rows_read(names.insert(name), after) && sqlite::all_read(after),
    ensures
        readable(after).to_set() == readable(before).to_set().insert(name),
        readable(after).no_duplicates(),
        readable(before).contains(name) ==> readable(after).to_set() == readable(before).to_set(),
{
    law_list_is_the_names(names, before);
    law_list_is_the_names(names.insert(name), after);
    if readable(before).contains(name) {
        assert(readable(before).to_set().contains(name));
        assert(names.insert(name) =~= names);
    }
}

/// Removing a process takes it from the list and nothing else, and leaves a list
/// without it as it is; as far as every row can be read, before and after.
pub proof fn law_removing_takes_from_the_list(
    names: Set<Seq<char>>,
    name: Seq<char>,
    before: Seq<Option<Seq<char>>>,
    after: Seq<Option<Seq<char>>>,
)
    requires
        sqlite::rows_read(names, before) && sqlite::all_read(before),
        sqlite::rows_read(names.remove(name), after) && sqlite::all_read(after),
    ensures
        readable(after).to_set() == readable(before).to_set().remove(name),
        readable(after).no_duplicates(),
        !readable(before).contains(name) ==> readable(after).to_set() == readable(before).to_set(),
{
    law_list_is_the_names(names, before);
    law_list_is_the_names(names.remove(name), after);
    if !readable(before).contains(name) {
        assert(!readable(before).to_set().contains(name));
        assert(names.remove(name) =~= names);
    }
}

/// A second set-up changes nothing: removed default names do not come back,
/// unless the list was emptied; then they all do.
pub proof fn law_set_up_twice(
    first: Set<Seq<char>>,
    second: Set<Seq<char>>,
    third: Set<Seq<char>>,
)
    requires
        names_set_up(first, second, true),
        names_set_up(second, third, true),
    ensures
        third == second,
        second != Set::<Seq<char>>::empty(),
        first != Set::<Seq<char>>::empty() ==> second == first,
        first == Set::<Seq<char>>::empty() ==> second == default_names(),
{
    assert(default_names().contains("calc.exe"@));
}

/// Adding twice is adding once, and removing undoes adding what was not there.
pub proof fn law_add_and_remove(names: Set<Seq<char>>, name: Seq<char>)
    ensures
        names.insert(name).insert(name) == names.insert(name),
        names.insert(name).remove(name) == names.remove(name),
        !names.contains(name) ==> names.insert(name).remove(name) == names,
{
    assert(names.insert(name).insert(name) =~= names.insert(name));
    assert(names.insert(name).remove(name) =~= names.remove(name));
    if !names.contains(name) {
        assert(names.insert(name).remove(name) =~= names);
    }
}

/// Once `set` is the master password, and the stored digest can be read, a
/// password is accepted exactly if its digest is that of `set`; `set` itself
/// is.
pub proof fn law_set_password_is_verified(
    config: Map<Seq<char>, Seq<char>>,
    set: Seq<char>,
    tried: Seq<char>,
    read: Option<Seq<char>>,
)
    requires
        sqlite::value_read(
            config.insert(sqlite::password_key(), digest::password_hash(set)),
            read,
        ),
        read is Some,
    ensures
        password_accepted(read, set),
        password_accepted(read, tried) <==> digest::sha256_digest(
            vstd::utf8::encode_utf8(tried),
        ) == digest::sha256_digest(vstd::utf8::encode_utf8(set)),
{
    let a = digest::sha256_digest(vstd::utf8::encode_utf8(tried));
    let b = digest::sha256_digest(vstd::utf8::encode_utf8(set));
    if password_accepted(read, tried) {
        crate::numbers::law_lower_hex_injective(a, b);
    }
}

/// Once `set` is the master password, and the stored digest can be read, a
/// digest is accepted exactly if it is that of `set`, white space around it and
/// the case of its letters aside.
pub proof fn law_set_password_hash_is_verified(
    config: Map<Seq<char>, Seq<char>>,
    set: Seq<char>,
    hash: Seq<char>,
    read: Option<Seq<char>>,
)
    requires
        sqlite::value_read(
            config.insert(sqlite::password_key(), digest::password_hash(set)),
            read,
        ),
        read is Some,
    ensures
        hash_accepted(read, hash) <==> text::same_ignoring_case(
            digest::password_hash(set),
            text::trimmed(hash),
        ),
{
    crate::numbers::lemma_hex_is_solid(
        digest::sha256_digest(vstd::utf8::encode_utf8(set)),
    );
}

/// While no master password is stored, no password and no digest is accepted.
pub proof fn law_no_password_no_access(
    config: Map<Seq<char>, Seq<char>>,
    tried: Seq<char>,
    read: Option<Seq<char>>,
)
    requires
        sqlite::value_read(config, read),
        !config.contains_key(sqlite::password_key()),
    ensures
        !password_accepted(read, tried),
        !hash_accepted(read, tried),
{
}

/// Who knows the password knows the digest.
pub proof fn law_accepted_password_accepted_hash(stored: Option<Seq<char>>, password: Seq<char>)
    requires
        password_accepted(stored, password),
    ensures
        hash_accepted(stored, digest::password_hash(password)),
{
}

/// The processes that are blocked at first.
pub proof fn law_default_names(name: Seq<char>)
    ensures
        default_names().contains(name) <==> name == "calc.exe"@ || name == "notepad.exe"@ || name
            == "mspaint.exe"@,
{
}

/// Setting up a database that nobody else reaches: an empty list gets the three
/// default names, any other stays as it is, and so do the settings; the tables
/// are created, the names counted and, only where there were none, the default
/// ones inserted, in this order.
pub proof fn law_set_up_database(conn: Connection, db: Db)
    requires
        set_up_result(conn, Ok(db)),
        sqlite::is_private(conn),
    ensures
        db.private(),
        db.config() == sqlite::config_rows(conn),
        ({
            let names = sqlite::name_rows(conn);
            let empty = names == Set::<Seq<char>>::empty();
            let tables = sqlite::executed(conn).push((sqlite::CREATE_CONFIG@, None, true)).push(
                (sqlite::CREATE_NAMES@, None, true),
            ).push((sqlite::COUNT_NAMES@, None, true));
            &&& empty ==> forall|n: Seq<char>| #[trigger]
                db.names().contains(n) <==> n == "calc.exe"@ || n == "notepad.exe"@ || n
                    == "mspaint.exe"@
            &&& !empty ==> db.names() == names
            &&& !empty ==> db.executed() == tables
            &&& empty ==> db.executed() == tables.push(
                (sqlite::INSERT_NAME@, Some("calc.exe"@), true),
            ).push((sqlite::INSERT_NAME@, Some("notepad.exe"@), true)).push(
                (sqlite::INSERT_NAME@, Some("mspaint.exe"@), true),
            )
        }),
{
    let before = sqlite::executed(conn);
    let tables = before.push((sqlite::CREATE_CONFIG@, None, true)).push(
        (sqlite::CREATE_NAMES@, None, true),
    ).push((sqlite::COUNT_NAMES@, None, true));
    assert(before + script_run(0, 3, true) =~= tables);
    assert(before + script_run(0, 6, true) =~= tables.push(
        (sqlite::INSERT_NAME@, Some("calc.exe"@), true),
    ).push((sqlite::INSERT_NAME@, Some("notepad.exe"@), true)).push(
        (sqlite::INSERT_NAME@, Some("mspaint.exe"@), true),
    ));
}

/// A set-up fails exactly where one of its statements does, and gives none after
/// that one.
pub proof fn law_set_up_stops_at_a_failure(conn: Connection, r: Result<Db, SetUpError>)
    requires
        set_up_result(conn, r),
    ensures
        ({
            let after = match r {
                Ok(db) => db.executed(),
                Err(e) => sqlite::executed(e.conn->0),
            };
            let before = sqlite::executed(conn);
            &&& r is Err ==> r->Err_0.conn is Some
            &&& before.len() < after.len() <= before.len() + 6
            &&& before.is_prefix_of(after)
            &&& after.last().2 == (r is Ok)
            &&& forall|i: int| before.len() <= i < after.len() - 1 ==> (#[trigger] after[i]).2
        }),
{
    let after = match r {
        Ok(db) => db.executed(),
        Err(e) => sqlite::executed(e.conn->0),
    };
    let before = sqlite::executed(conn);
    let n = after.len() - before.len();
    assert(after == before + script_run(0, n, r is Ok));
    assert(after.subrange(0, before.len() as int) =~= before);
    assert(after.last() == script_run(0, n, r is Ok)[n - 1]);
    assert forall|i: int| before.len() <= i < after.len() - 1 implies (#[trigger] after[i]).2 by {
        assert(after[i] == script_run(0, n, r is Ok)[i - before.len()]);
    }
}

/// A password belongs to a stored digest exactly if it is the digest of it, and
/// a digest does if it is the same, white space and the case of its letters
/// aside; nothing belongs to none.
pub proof fn law_what_belongs_to_a_digest(stored: Seq<char>, tried: Seq<char>)
    ensures
        password_accepted(Some(stored), tried) <==> stored == digest::password_hash(tried),
        hash_accepted(Some(stored), tried) <==> text::same_ignoring_case(
            text::trimmed(stored),
            text::trimmed(tried),
        ),
        !password_accepted(None, tried),
        !hash_accepted(None, tried),
{
}

/// A database that was opened in memory is nobody else's and empty.
pub proof fn law_opened_in_memory(conn: Connection)
    requires
        memory_given(Ok(conn)),
    ensures
        sqlite::is_private(conn),
        sqlite::name_rows(conn) == Set::<Seq<char>>::empty(),
        sqlite::config_rows(conn) == Map::<Seq<char>, Seq<char>>::empty(),
        sqlite::executed(conn).len() == 0,
{
}

} // verus!
