//! Which running processes are to be ended.

use vstd::prelude::*;

use crate::audit::AuditEntry;
use crate::audit::AuditEvent;
use crate::audit::Level;
use crate::casing;
use crate::db;
use crate::db::Db;
use crate::numbers;
use crate::numbers::decimal_text;
use crate::sqlite;
use crate::text::join2;
use crate::text::join3;
use crate::text::same;
use crate::utf16;
use crate::utf16::buffer_text;

use rusqlite::Error;

verus! {

/// A running process, as the operating system lists it.
#[derive(Debug)]
pub struct ProcessEntry {
    pub pid: u32,
    /// The name of the executable in UTF-16, closed by a zero or filled to
    /// the end.
    pub exe_file: Vec<u16>,
}

/// A process that is to be ended.
#[derive(Debug, PartialEq, Eq)]
pub struct Termination {
    pub pid: u32,
    pub exe_name: String,
}

/// A process that is to be ended, by its texts.
pub struct Target {
    pub pid: u32,
    pub exe_name: Seq<char>,
}

impl View for Termination {
    type V = Target;

    open spec fn view(&self) -> Target {
        Target { pid: self.pid, exe_name: self.exe_name@ }
    }
}

/// The processes that are to be ended, by their texts.
pub open spec fn targets(list: Seq<Termination>) -> Seq<Target> {
    list.map_values(|t: Termination| t@)
}

impl ProcessEntry {
    /// The name of the executable.
    pub open spec fn name(&self) -> Seq<char> {
        utf16::decode(utf16::until_zero(self.exe_file@))
    }
}

/// How often `name` stands in the list.
pub open spec fn hits(blocked: Seq<Seq<char>>, name: Seq<char>) -> nat
    decreases blocked.len(),
{
    if blocked.len() == 0 {
        0
    } else {
        hits(blocked.drop_last(), name) + (if blocked.last() == name {
            1nat
        } else {
            0nat
        })
    }
}

/// What is to be ended of the running processes: each as often as its name,
/// in lower case, stands in the list.
pub open spec fn planned(blocked: Seq<Seq<char>>, running: Seq<ProcessEntry>) -> Seq<Target>
    decreases running.len(),
{
    if running.len() == 0 {
        seq![]
    } else {
        let last = running.last();
        planned(blocked, running.drop_last()) + Seq::new(
            hits(blocked, casing::lower_case(last.name())),
            |i: int| Target { pid: last.pid, exe_name: last.name() },
        )
    }
}

/// What is to be ended of the running processes.
pub fn plan_terminations(blocked: &Vec<String>, running: &Vec<ProcessEntry>) -> (r: Vec<
    Termination,
>)
    ensures
        targets(r@) == planned(db::texts(blocked@), running@),
{
    let ghost names = db::texts(blocked@);
    let mut r: Vec<Termination> = Vec::new();
    let mut i: usize = 0;
    assert(targets(r@) == Seq::<Target>::empty());
    while i < running.len()
        invariant
            i <= running@.len(),
            names == db::texts(blocked@),
            targets(r@) == planned(names, running@.take(i as int)),
        decreases running@.len() - i,
    {
        let entry = &running[i];
        let exe_name = buffer_text(&entry.exe_file);
        let lowered = exe_name.as_str().to_lowercase();
        let ghost before = targets(r@);
        let ghost target = Target { pid: entry.pid, exe_name: exe_name@ };
        let mut k: usize = 0;
        assert(before == before + Seq::new(0, |j: int| target));
        while k < blocked.len()
            invariant
                k <= blocked@.len(),
                names == db::texts(blocked@),
                target == (Target { pid: entry.pid, exe_name: exe_name@ }),
                targets(r@) == before + Seq::new(
                    hits(names.take(k as int), lowered@),
                    |j: int| target,
                ),
            decreases blocked@.len() - k,
        {
            let ghost done = targets(r@);
            assert(names.take(k + 1).drop_last() == names.take(k as int));
            assert(names.take(k + 1).last() == blocked@[k as int]@);
            if lowered == blocked[k] {
                r.push(Termination { pid: entry.pid, exe_name: exe_name.clone() });
                assert(targets(r@) == done.push(target));
            }
            k = k + 1;
            assert(targets(r@) == before + Seq::new(
                hits(names.take(k as int), lowered@),
                |j: int| target,
            ));
        }
        assert(names.take(k as int) == names);
        assert(running@.take(i + 1).drop_last() == running@.take(i as int));
        assert(running@.take(i + 1).last() == *entry);
        assert(lowered@ == casing::lower_case(exe_name@));
        i = i + 1;
        assert(targets(r@) == planned(names, running@.take(i as int)));
    }
    assert(running@.take(i as int) == running@);
    r
}

/// The list that is used where the database cannot be read.
pub open spec fn fallback_names() -> Seq<Seq<char>> {
    seq!["calc.exe"@, "notepad.exe"@, "mspaint.exe"@]
}

fn fallback_list() -> (r: Vec<String>)
    ensures
        db::texts(r@) == fallback_names(),
{
    let mut r: Vec<String> = Vec::new();
    r.push("calc.exe".to_owned());
    r.push("notepad.exe".to_owned());
    r.push("mspaint.exe".to_owned());
    assert(db::texts(r@) == fallback_names());
    r
}

/// The list to go by, and what is logged where the database cannot be read.
pub fn blocked_or_fallback(read: Result<Vec<String>, db::DbError>) -> (r: (
    Vec<String>,
    Option<AuditEvent>,
))
    ensures
        match read {
            Ok(list) => r.0 == list && r.1 is None,
            Err(e) => db::texts(r.0@) == fallback_names() && (r.1 matches Some(event) && event@
                == unread_entry(e.text@)),
        },
{
    match read {
        Ok(list) => (list, None),
        Err(e) => (
            fallback_list(),
            Some(
                AuditEvent::new(
                    Level::Error,
                    "database_error",
                    join2("Failed to query blocked processes: ", e.text.as_str()).as_str(),
                ),
            ),
        ),
    }
}

/// What is logged where the database cannot be read.
pub open spec fn unread_entry(reason: Seq<char>) -> AuditEntry {
    AuditEntry {
        level: Level::Error,
        category: "database_error"@,
        message: "Failed to query blocked processes: "@ + reason,
    }
}

/// What a round of blocking comes to.
#[derive(Debug)]
pub struct BlockingRound {
    /// The processes to end, in their order.
    pub terminations: Vec<Termination>,
    /// The entry to log, where there is one.
    pub event: Option<AuditEvent>,
}

/// A round of blocking by what a read of the list has given.
pub fn blocking_round(
    read: Result<Vec<String>, db::DbError>,
    running: &Vec<ProcessEntry>,
) -> (r: BlockingRound)
    ensures
        match read {
            Ok(list) => targets(r.terminations@) == planned(db::texts(list@), running@)
                && r.event is None,
            Err(e) => targets(r.terminations@) == planned(fallback_names(), running@) && (
            r.event matches Some(event) && event@ == unread_entry(e.text@)),
        },
{
    let (blocked, event) = blocked_or_fallback(read);
    let terminations = plan_terminations(&blocked, running);
    BlockingRound { terminations, event }
}

/// What a round of blocking may come to: nothing while blocking is suspended;
/// else what is planned for the list in the database or, where that cannot be
/// read, for the fallback list.
pub open spec fn possible_round(
    database: Db,
    suspended: bool,
    running: Seq<ProcessEntry>,
    round: BlockingRound,
) -> bool {
    if suspended {
        round.terminations@.len() == 0 && round.event is None
    } else {
        &&& match round.event {
            None => exists|rows: Seq<Option<Seq<char>>>| #[trigger]
                database.may_list(rows) && targets(round.terminations@) == planned(
                    db::readable(rows),
                    running,
                ),
            Some(event) => targets(round.terminations@) == planned(fallback_names(), running)
                && exists|reason: Seq<char>| event@ == #[trigger] unread_entry(reason),
        }
        &&& exists|read: Result<Vec<String>, db::DbError>| #[trigger]
            call_ensures(Db::get_blocked_processes, (&database,), read) && match read {
                Ok(list) => round.event is None && targets(round.terminations@) == planned(
                    db::texts(list@),
                    running,
                ),
                Err(e) => (round.event matches Some(event) && event@ == unread_entry(e.text@))
                    && targets(round.terminations@) == planned(fallback_names(), running),
            }
    }
}

/// One round of blocking: which of the running processes are to be ended.
pub fn check_and_block_processes(
    database: &Db,
    suspended: bool,
    running: &Vec<ProcessEntry>,
) -> (r: BlockingRound)
    ensures
        possible_round(*database, suspended, running@, r),
{
    if suspended {
        return BlockingRound { terminations: Vec::new(), event: None };
    }
    let read = database.get_blocked_processes();
    assert(call_ensures(Db::get_blocked_processes, (database,), read));
    blocking_round(read, running)
}

/// What is logged when a process was ended.
pub open spec fn ended_entry(target: Target) -> AuditEntry {
    AuditEntry {
        level: Level::Warn,
        category: "process_blocked"@,
        message: "Blocked forbidden process: "@ + target.exe_name + " (PID: "@ + numbers::decimal(
            target.pid as nat,
        ) + ")"@,
    }
}

/// What is logged when a process was ended.
pub fn ended_event(termination: &Termination) -> (r: AuditEvent)
    ensures
        r@ == ended_entry(termination@),
{
    let head = join3("Blocked forbidden process: ", termination.exe_name.as_str(), " (PID: ");
    let pid = decimal_text(termination.pid as u64);
    AuditEvent::new(
        Level::Warn,
        "process_blocked",
        join3(head.as_str(), pid.as_str(), ")").as_str(),
    )
}

/// Whether a process is the core service.
pub fn is_core_service(entry: &ProcessEntry) -> (r: bool)
    ensures
        r == (casing::lower_case(entry.name()) == "core-service.exe"@),
{
    let lowered = buffer_text(&entry.exe_file).as_str().to_lowercase();
    same(lowered.as_str(), "core-service.exe")
}

// ---------------------------------------------------------------------------
// Laws
// ---------------------------------------------------------------------------

/// A name is hit exactly if it stands in the list.
pub proof fn lemma_hits(blocked: Seq<Seq<char>>, name: Seq<char>)
    ensures
        hits(blocked, name) > 0 <==> blocked.contains(name),
        blocked.no_duplicates() ==> hits(blocked, name) <= 1,
    decreases blocked.len(),
{
    if blocked.len() > 0 {
        let rest = blocked.drop_last();
        lemma_hits(rest, name);
        if rest.contains(name) {
            let j = choose|j: int| 0 <= j < rest.len() && rest[j] == name;
            assert(blocked[j] == name);
        }
        if blocked.contains(name) && blocked.last() != name {
            let j = choose|j: int| 0 <= j < blocked.len() && blocked[j] == name;
            assert(rest[j] == name);
        }
        if blocked.last() == name {
            assert(blocked[blocked.len() - 1] == name);
        }
    }
}

/// Exactly the running processes whose name, in lower case, is on the list are
/// to be ended.
pub proof fn law_blocked_and_only_blocked(
    blocked: Seq<Seq<char>>,
    running: Seq<ProcessEntry>,
    target: Target,
)
    ensures
        planned(blocked, running).contains(target) <==> exists|i: int|
            0 <= i < running.len() && (#[trigger] running[i]).pid == target.pid
                && running[i].name() == target.exe_name && blocked.contains(
                casing::lower_case(target.exe_name),
            ),
    decreases running.len(),
{
    if running.len() > 0 {
        let rest = running.drop_last();
        let last = running.last();
        law_blocked_and_only_blocked(blocked, rest, target);
        lemma_hits(blocked, casing::lower_case(last.name()));
        let n = hits(blocked, casing::lower_case(last.name()));
        let head = planned(blocked, rest);
        let tail = Seq::new(n, |i: int| Target { pid: last.pid, exe_name: last.name() });
        let all = planned(blocked, running);
        assert(all == head + tail);
        if all.contains(target) {
            let k = choose|k: int| 0 <= k < all.len() && all[k] == target;
            if k < head.len() {
                assert(head[k] == target);
                assert(head.contains(target));
                let i = choose|i: int|
                    0 <= i < rest.len() && (#[trigger] rest[i]).pid == target.pid
                        && rest[i].name() == target.exe_name && blocked.contains(
                        casing::lower_case(target.exe_name),
                    );
                assert(running[i] == rest[i]);
            } else {
                assert(tail[k - head.len()] == target);
                assert(running[running.len() - 1] == last);
            }
        }
        if exists|i: int|
            0 <= i < running.len() && (#[trigger] running[i]).pid == target.pid
                && running[i].name() == target.exe_name && blocked.contains(
                casing::lower_case(target.exe_name),
            ) {
            let i = choose|i: int|
                0 <= i < running.len() && (#[trigger] running[i]).pid == target.pid
                    && running[i].name() == target.exe_name && blocked.contains(
                    casing::lower_case(target.exe_name),
                );
            if i < rest.len() {
                assert(rest[i] == running[i]);
                assert(head.contains(target));
                let k = choose|k: int| 0 <= k < head.len() && head[k] == target;
                assert(all[k] == target);
            } else {
                assert(tail[0] == target);
                assert(all[head.len() as int] == target);
            }
        }
    }
}

/// By a list without repetitions, no running process is ended more than once.
pub proof fn law_ended_at_most_once(blocked: Seq<Seq<char>>, running: Seq<ProcessEntry>)
    requires
        blocked.no_duplicates(),
    ensures
        planned(blocked, running).len() <= running.len(),
    decreases running.len(),
{
    if running.len() > 0 {
        law_ended_at_most_once(blocked, running.drop_last());
        lemma_hits(blocked, casing::lower_case(running.last().name()));
    }
}

/// By the list of the database, as far as every row of it can be read, exactly
/// the running processes are ended whose name, in lower case, is blocked, and
/// each at most once.
pub proof fn law_round_follows_the_database(
    names: Set<Seq<char>>,
    rows: Seq<Option<Seq<char>>>,
    running: Seq<ProcessEntry>,
    target: Target,
)
    requires
        sqlite::rows_read(names, rows),
        sqlite::all_read(rows),
    ensures
        planned(db::readable(rows), running).contains(target) <==> exists|i: int|
            0 <= i < running.len() && (#[trigger] running[i]).pid == target.pid
                && running[i].name() == target.exe_name && names.contains(
                casing::lower_case(target.exe_name),
            ),
        planned(db::readable(rows), running).len() <= running.len(),
{
    db::law_list_is_the_names(names, rows);
    law_blocked_and_only_blocked(db::readable(rows), running, target);
    law_ended_at_most_once(db::readable(rows), running);
    let lowered = casing::lower_case(target.exe_name);
    assert(db::readable(rows).to_set().contains(lowered) <==> names.contains(lowered));
}

/// A process is to be ended.
proof fn lemma_target(terminations: Seq<Termination>, pid: u32, name: Seq<char>)
    ensures
        targets(terminations).contains(Target { pid, exe_name: name }) <==> exists|k: int|
            0 <= k < terminations.len() && (#[trigger] terminations[k]).pid == pid
                && terminations[k].exe_name@ == name,
{
    let t = targets(terminations);
    let target = Target { pid, exe_name: name };
    if t.contains(target) {
        let k = choose|k: int| 0 <= k < t.len() && t[k] == target;
        assert(terminations[k].pid == pid);
    }
    if exists|k: int|
        0 <= k < terminations.len() && (#[trigger] terminations[k]).pid == pid
            && terminations[k].exe_name@ == name {
        let k = choose|k: int|
            0 <= k < terminations.len() && (#[trigger] terminations[k]).pid == pid
                && terminations[k].exe_name@ == name;
        assert(t[k] == target);
    }
}

/// A round ends a running process, wherever it stands among them, exactly if
/// its name, in lower case, stands in the list that the database gave.
pub proof fn law_round_ends_what_was_listed(
    database: Db,
    running: Seq<ProcessEntry>,
    round: BlockingRound,
)
    requires
        possible_round(database, false, running, round),
        round.event is None,
    ensures
        exists|list: Vec<String>|
            {
                &&& #[trigger] call_ensures(
                    Db::get_blocked_processes,
                    (&database,),
                    Ok::<Vec<String>, db::DbError>(list),
                )
                &&& forall|i: int|
                    0 <= i < running.len() ==> ((exists|j: int|
                        0 <= j < list@.len() && #[trigger] list@[j]@ == casing::lower_case(
                            running[i].name(),
                        )) <==> exists|k: int|
                        0 <= k < round.terminations@.len() && (
                        #[trigger] round.terminations@[k]).pid == (#[trigger] running[i]).pid
                            && round.terminations@[k].exe_name@ == running[i].name())
            },
{
    let read = choose|read: Result<Vec<String>, db::DbError>| #[trigger]
        call_ensures(Db::get_blocked_processes, (&database,), read) && match read {
            Ok(list) => round.event is None && targets(round.terminations@) == planned(
                db::texts(list@),
                running,
            ),
            Err(e) => (round.event matches Some(event) && event@ == unread_entry(e.text@))
                && targets(round.terminations@) == planned(fallback_names(), running),
        };
    let list = read->Ok_0;
    assert(read == Ok::<Vec<String>, db::DbError>(list));
    assert forall|i: int| 0 <= i < running.len() implies ((exists|j: int|
        0 <= j < list@.len() && #[trigger] list@[j]@ == casing::lower_case(running[i].name()))
        <==> exists|k: int|
        0 <= k < round.terminations@.len() && (#[trigger] round.terminations@[k]).pid == (
        #[trigger] running[i]).pid && round.terminations@[k].exe_name@ == running[i].name()) by {
        lemma_ended_by_list(list@, running, round.terminations@, i);
    }
}

proof fn lemma_ended_by_list(
    list: Seq<String>,
    running: Seq<ProcessEntry>,
    terminations: Seq<Termination>,
    i: int,
)
    requires
        targets(terminations) == planned(db::texts(list), running),
        0 <= i < running.len(),
    ensures
        (exists|j: int|
            0 <= j < list.len() && #[trigger] list[j]@ == casing::lower_case(running[i].name()))
            <==> exists|k: int|
            0 <= k < terminations.len() && (#[trigger] terminations[k]).pid == running[i].pid
                && terminations[k].exe_name@ == running[i].name(),
{
    let names = db::texts(list);
    let lowered = casing::lower_case(running[i].name());
    let target = Target { pid: running[i].pid, exe_name: running[i].name() };
    law_blocked_and_only_blocked(names, running, target);
    lemma_target(terminations, running[i].pid, running[i].name());
    if names.contains(lowered) {
        let j = choose|j: int| 0 <= j < names.len() && names[j] == lowered;
        assert(list[j]@ == lowered);
    }
    if exists|j: int| 0 <= j < list.len() && #[trigger] list[j]@ == lowered {
        let j = choose|j: int| 0 <= j < list.len() && #[trigger] list[j]@ == lowered;
        assert(names[j] == lowered);
    }
}

/// A round ends nothing but running processes, and each by its own number and
/// name.
pub proof fn law_round_ends_running_processes_only(
    database: Db,
    suspended: bool,
    running: Seq<ProcessEntry>,
    round: BlockingRound,
    k: int,
)
    requires
        possible_round(database, suspended, running, round),
        0 <= k < round.terminations@.len(),
    ensures
        !suspended,
        exists|i: int|
            0 <= i < running.len() && (#[trigger] running[i]).pid == round.terminations@[k].pid
                && running[i].name() == round.terminations@[k].exe_name@,
{
    let t = targets(round.terminations@);
    assert(t[k] == round.terminations@[k]@);
    assert(t.contains(t[k]));
    match round.event {
        None => {
            let rows = choose|rows: Seq<Option<Seq<char>>>| #[trigger]
                database.may_list(rows) && t == planned(db::readable(rows), running);
            law_blocked_and_only_blocked(db::readable(rows), running, t[k]);
        },
        Some(_) => law_blocked_and_only_blocked(fallback_names(), running, t[k]),
    }
}

/// Where nobody else reaches the database and every query reads every row of
/// it, a round ends exactly the running processes whose name, in lower case, is
/// blocked.
pub proof fn law_round_ends_what_is_blocked(
    database: Db,
    running: Seq<ProcessEntry>,
    round: BlockingRound,
    i: int,
)
    requires
        possible_round(database, false, running, round),
        database.private(),
        round.event is None,
        forall|read: Result<Vec<Option<String>>, Error>| #[trigger]
            database.rows_given(read) ==> (read matches Ok(rows) ==> sqlite::all_read(
                sqlite::row_texts(rows@),
            )),
        0 <= i < running.len(),
    ensures
        database.names().contains(casing::lower_case(running[i].name())) <==> exists|k: int|
            0 <= k < round.terminations@.len() && (#[trigger] round.terminations@[k]).pid
                == running[i].pid && round.terminations@[k].exe_name@ == running[i].name(),
{
    let read = choose|read: Result<Vec<String>, db::DbError>| #[trigger]
        call_ensures(Db::get_blocked_processes, (&database,), read) && match read {
            Ok(list) => round.event is None && targets(round.terminations@) == planned(
                db::texts(list@),
                running,
            ),
            Err(e) => (round.event matches Some(event) && event@ == unread_entry(e.text@))
                && targets(round.terminations@) == planned(fallback_names(), running),
        };
    let list = read->Ok_0;
    let given = choose|given: Result<Vec<Option<String>>, Error>| #[trigger]
        database.rows_given(given) && match given {
            Ok(rows) => db::texts(list@) == db::readable(sqlite::row_texts(rows@)),
            Err(_) => false,
        };
    let rows = sqlite::row_texts(given->Ok_0@);
    db::lemma_rows_given(database, given);
    let target = Target { pid: running[i].pid, exe_name: running[i].name() };
    law_round_follows_the_database(database.names(), rows, running, target);
    lemma_target(round.terminations@, running[i].pid, running[i].name());
}

/// Where the list cannot be read, the three default processes are ended, and
/// the reason is logged as an error.
pub proof fn law_unread_list_falls_back(
    database: Db,
    running: Seq<ProcessEntry>,
    round: BlockingRound,
    i: int,
)
    requires
        possible_round(database, false, running, round),
        round.event is Some,
        0 <= i < running.len(),
    ensures
        ({
            let lowered = casing::lower_case(running[i].name());
            (lowered == "calc.exe"@ || lowered == "notepad.exe"@ || lowered == "mspaint.exe"@)
                <==> exists|k: int|
                0 <= k < round.terminations@.len() && (#[trigger] round.terminations@[k]).pid
                    == running[i].pid && round.terminations@[k].exe_name@ == running[i].name()
        }),
        exists|e: db::DbError|
            {
                &&& #[trigger] call_ensures(
                    Db::get_blocked_processes,
                    (&database,),
                    Err::<Vec<String>, db::DbError>(e),
                )
                &&& round.event->0.level == Level::Error
                &&& round.event->0.category@ == "database_error"@
                &&& round.event->0.message@ == "Failed to query blocked processes: "@ + e.text@
            },
{
    let lowered = casing::lower_case(running[i].name());
    let target = Target { pid: running[i].pid, exe_name: running[i].name() };
    law_blocked_and_only_blocked(fallback_names(), running, target);
    lemma_target(round.terminations@, running[i].pid, running[i].name());
    let f = fallback_names();
    assert(f[0] == "calc.exe"@ && f[1] == "notepad.exe"@ && f[2] == "mspaint.exe"@);
    let read = choose|read: Result<Vec<String>, db::DbError>| #[trigger]
        call_ensures(Db::get_blocked_processes, (&database,), read) && match read {
            Ok(list) => round.event is None && targets(round.terminations@) == planned(
                db::texts(list@),
                running,
            ),
            Err(e) => (round.event matches Some(event) && event@ == unread_entry(e.text@))
                && targets(round.terminations@) == planned(fallback_names(), running),
        };
    let e = read->Err_0;
    assert(read == Err::<Vec<String>, db::DbError>(e));
}

/// While blocking is suspended a round ends nothing and logs nothing.
pub proof fn law_suspended_round_is_idle(
    database: Db,
    running: Seq<ProcessEntry>,
    round: BlockingRound,
)
    requires
        possible_round(database, true, running, round),
    ensures
        round.terminations@.len() == 0,
        round.event is None,
{
}

/// Processes are ended in the order in which they run: what is planned for a
/// part of them does not depend on the others.
pub proof fn law_planned_one_after_the_other(
    blocked: Seq<Seq<char>>,
    a: Seq<ProcessEntry>,
    b: Seq<ProcessEntry>,
)
    ensures
        planned(blocked, a + b) == planned(blocked, a) + planned(blocked, b),
    decreases b.len(),
{
    if b.len() == 0 {
        assert(a + b =~= a);
    } else {
        assert((a + b).drop_last() =~= a + b.drop_last());
        law_planned_one_after_the_other(blocked, a, b.drop_last());
        assert((a + b).last() == b.last());
        assert(planned(blocked, a + b) =~= planned(blocked, a) + planned(blocked, b));
    }
}

/// By a list without repetitions, a single process is ended once, or not at
/// all.
pub proof fn law_single_process_is_ended_once(blocked: Seq<Seq<char>>, entry: ProcessEntry)
    requires
        blocked.no_duplicates(),
    ensures
        planned(blocked, seq![entry]) == (if blocked.contains(casing::lower_case(entry.name())) {
            seq![Target { pid: entry.pid, exe_name: entry.name() }]
        } else {
            Seq::<Target>::empty()
        }),
{
    reveal_with_fuel(planned, 2);
    lemma_hits(blocked, casing::lower_case(entry.name()));
    assert(seq![entry].drop_last() =~= Seq::<ProcessEntry>::empty());
    assert(planned(blocked, seq![entry]) =~= if blocked.contains(
        casing::lower_case(entry.name()),
    ) {
        seq![Target { pid: entry.pid, exe_name: entry.name() }]
    } else {
        Seq::<Target>::empty()
    });
}

/// A process whose executable is called `name` is known by that name, whatever
/// stands behind the zero that closes it.
pub proof fn law_process_is_known_by_its_name(entry: ProcessEntry, name: Seq<char>, rest: Seq<u16>)
    requires
        !name.contains('\0'),
        entry.exe_file@ == utf16::encode(name).push(0) + rest,
    ensures
        entry.name() == name,
{
    utf16::law_closed_text_is_read(name, rest);
}

/// What is logged of an ended process tells its name and its number, as a
/// warning about a blocked process.
pub proof fn law_ended_process_is_told(target: Target)
    ensures
        ended_entry(target).level == Level::Warn,
        ended_entry(target).category == "process_blocked"@,
        ended_entry(target).message == "Blocked forbidden process: "@ + target.exe_name
            + " (PID: "@ + numbers::decimal(target.pid as nat) + ")"@,
{
}

/// What is known of what is to be ended by its texts is what stands in it.
pub proof fn law_terminations_are_seen_whole(list: Seq<Termination>, i: int)
    requires
        0 <= i < list.len(),
    ensures
        targets(list).len() == list.len(),
        targets(list)[i].pid == list[i].pid,
        targets(list)[i].exe_name == list[i].exe_name@,
{
}

} // verus!
