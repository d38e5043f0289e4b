//! The administration protocol: one command line in, one reply line out.

use vstd::prelude::*;

use crate::audit;
use crate::audit::AuditEntry;
use crate::audit::AuditEvent;
use crate::audit::Level;
use crate::db;
use crate::db::Db;
use crate::digest;
use crate::network::Edition;
use crate::numbers;
use crate::sqlite;
use crate::text;
use crate::text::join2;
use crate::text::join3;
use crate::text::same;
use crate::text::strip_prefix;
use crate::text::trim;

verus! {

// ---------------------------------------------------------------------------
// Requests
// ---------------------------------------------------------------------------

/// What a client asks for.
#[derive(Debug)]
pub enum AdminRequest {
    Status,
    Suspend(String),
    Resume(String),
    AddBlock { password: String, name: String },
    RemoveBlock { password: String, name: String },
    /// `ADD_BLOCK` without a process name.
    IncompleteAdd,
    /// `REMOVE_BLOCK` without a process name.
    IncompleteRemove,
    Unknown,
}

/// What a client asks for, by its texts.
pub enum Request {
    Status,
    Suspend(Seq<char>),
    Resume(Seq<char>),
    AddBlock { password: Seq<char>, name: Seq<char> },
    RemoveBlock { password: Seq<char>, name: Seq<char> },
    IncompleteAdd,
    IncompleteRemove,
    Unknown,
}

impl View for AdminRequest {
    type V = Request;

    open spec fn view(&self) -> Request {
        match self {
            AdminRequest::Status => Request::Status,
            AdminRequest::Suspend(p) => Request::Suspend(p@),
            AdminRequest::Resume(p) => Request::Resume(p@),
            AdminRequest::AddBlock { password, name } => Request::AddBlock {
                password: password@,
                name: name@,
            },
            AdminRequest::RemoveBlock { password, name } => Request::RemoveBlock {
                password: password@,
                name: name@,
            },
            AdminRequest::IncompleteAdd => Request::IncompleteAdd,
            AdminRequest::IncompleteRemove => Request::IncompleteRemove,
            AdminRequest::Unknown => Request::Unknown,
        }
    }
}

impl Request {
    /// The password that comes with the request, where one is asked for.
    pub open spec fn password(self) -> Option<Seq<char>> {
        match self {
            Request::Suspend(p) => Some(p),
            Request::Resume(p) => Some(p),
            Request::AddBlock { password, .. } => Some(password),
            Request::RemoveBlock { password, .. } => Some(password),
            _ => None,
        }
    }
}

/// A password and a process name, parted by the first space; white space
/// round the name does not count.
pub open spec fn password_and_name(rest: Seq<char>) -> Option<(Seq<char>, Seq<char>)> {
    match text::position(rest, " "@) {
        Some(k) => Some((rest.take(k), text::trimmed(rest.skip(k + 1)))),
        None => None,
    }
}

/// The request that a line makes; white space round the line does not count.
pub open spec fn request_of(line: Seq<char>) -> Request {
    let input = text::trimmed(line);
    if input == "STATUS"@ {
        Request::Status
    } else if text::has_prefix(input, "SUSPEND "@) {
        Request::Suspend(input.skip(8))
    } else if text::has_prefix(input, "RESUME "@) {
        Request::Resume(input.skip(7))
    } else if text::has_prefix(input, "ADD_BLOCK "@) {
        match password_and_name(input.skip(10)) {
            Some((password, name)) => Request::AddBlock { password, name },
            None => Request::IncompleteAdd,
        }
    } else if text::has_prefix(input, "REMOVE_BLOCK "@) {
        match password_and_name(input.skip(13)) {
            Some((password, name)) => Request::RemoveBlock { password, name },
            None => Request::IncompleteRemove,
        }
    } else {
        Request::Unknown
    }
}

fn split_name(rest: &str) -> (r: Option<(String, String)>)
    ensures
        match r {
            Some((password, name)) => password_and_name(rest@) == Some((password@, name@)),
            None => password_and_name(rest@) is None,
        },
{
    proof {
        reveal_strlit(" ");
        text::lemma_position_from(rest@, " "@, 0);
    }
    match text::split_first(rest, " ") {
        Some((password, name)) => Some((password, trim(name.as_str()))),
        None => None,
    }
}

/// The request that a line makes.
pub fn parse_request(line: &str) -> (r: AdminRequest)
    ensures
        r@ == request_of(line@),
{
    proof {
        reveal_strlit("SUSPEND ");
        reveal_strlit("RESUME ");
        reveal_strlit("ADD_BLOCK ");
        reveal_strlit("REMOVE_BLOCK ");
    }
    let input = trim(line);
    if same(input.as_str(), "STATUS") {
        return AdminRequest::Status;
    }
    if let Some(password) = strip_prefix(input.as_str(), "SUSPEND ") {
        return AdminRequest::Suspend(password);
    }
    if let Some(password) = strip_prefix(input.as_str(), "RESUME ") {
        return AdminRequest::Resume(password);
    }
    if let Some(rest) = strip_prefix(input.as_str(), "ADD_BLOCK ") {
        return match split_name(rest.as_str()) {
            Some((password, name)) => AdminRequest::AddBlock { password, name },
            None => AdminRequest::IncompleteAdd,
        };
    }
    if let Some(rest) = strip_prefix(input.as_str(), "REMOVE_BLOCK ") {
        return match split_name(rest.as_str()) {
            Some((password, name)) => AdminRequest::RemoveBlock { password, name },
            None => AdminRequest::IncompleteRemove,
        };
    }
    AdminRequest::Unknown
}

// ---------------------------------------------------------------------------
// Replies
// ---------------------------------------------------------------------------

/// What a request comes to.
#[derive(Debug)]
pub struct AdminOutcome {
    /// The line to send back.
    pub reply: String,
    /// Whether blocking is suspended from now on.
    pub suspended: bool,
    /// The entry to log, where there is one.
    pub event: Option<AuditEvent>,
}

/// What a request comes to, by its texts.
pub struct Outcome {
    pub reply: Seq<char>,
    pub suspended: bool,
    pub event: Option<AuditEntry>,
}

impl View for AdminOutcome {
    type V = Outcome;

    open spec fn view(&self) -> Outcome {
        Outcome {
            reply: self.reply@,
            suspended: self.suspended,
            event: audit::entry_of(self.event),
        }
    }
}

/// How a change of the block list ended: done, or SQLite's wording of why not.
pub open spec fn change_text(stored: Result<(), db::DbError>) -> Result<(), Seq<char>> {
    match stored {
        Ok(_) => Ok(()),
        Err(e) => Err(e.text@),
    }
}

/// The reply to `STATUS`.
pub open spec fn status_reply(suspended: bool) -> Seq<char> {
    "STATE: "@ + (if suspended {
        "Suspended"@
    } else {
        "Active"@
    }) + "\n"@
}

/// What is logged of a suspension, or else of a resumption.
pub open spec fn switch_entry(edition: Edition, suspend: bool) -> AuditEntry {
    let (level, message) = match edition {
        Edition::Networked => if suspend {
            (Level::Warn, "System SUSPENDED via Admin pipe."@)
        } else {
            (Level::Info, "System RESUMED via Admin pipe."@)
        },
        Edition::Plain => if suspend {
            (
                Level::Warn,
                "System Suspend successfully activated via master password override."@,
            )
        } else {
            (Level::Warn, "System Resume successfully activated via master password."@)
        },
    };
    AuditEntry { level, category: "system_override"@, message }
}

fn switch_event(edition: Edition, suspend: bool) -> (r: AuditEvent)
    ensures
        r@ == switch_entry(edition, suspend),
{
    let (level, message) = match edition {
        Edition::Networked => if suspend {
            (Level::Warn, "System SUSPENDED via Admin pipe.")
        } else {
            (Level::Info, "System RESUMED via Admin pipe.")
        },
        Edition::Plain => if suspend {
            (Level::Warn, "System Suspend successfully activated via master password override.")
        } else {
            (Level::Warn, "System Resume successfully activated via master password.")
        },
    };
    AuditEvent::new(level, "system_override", message)
}

/// A password was wrong.
pub open spec fn refused(suspended: bool, message: Seq<char>) -> Outcome {
    Outcome {
        reply: "ERROR: Invalid password\n"@,
        suspended,
        event: Some(
            AuditEntry { level: Level::Error, category: "unauthorized_access"@, message },
        ),
    }
}

/// The block list was to be changed.
pub open spec fn list_changed(
    suspended: bool,
    stored: Result<(), Seq<char>>,
    message: Seq<char>,
) -> Outcome {
    match stored {
        Ok(_) => Outcome {
            reply: "OK\n"@,
            suspended,
            event: Some(AuditEntry { level: Level::Warn, category: "system_override"@, message }),
        },
        Err(e) => Outcome {
            reply: "ERROR: Database error: "@ + e + "\n"@,
            suspended,
            event: None,
        },
    }
}

/// What a request comes to: `verified` tells whether its password is the
/// master password, `stored` how the change of the block list ended.
pub open spec fn outcome_of(
    edition: Edition,
    request: Request,
    suspended: bool,
    verified: bool,
    stored: Result<(), Seq<char>>,
) -> Outcome {
    match request {
        Request::Status => Outcome { reply: status_reply(suspended), suspended, event: None },
        Request::Suspend(_) => if verified {
            Outcome {
                reply: "OK\n"@,
                suspended: true,
                event: Some(switch_entry(edition, true)),
            }
        } else {
            refused(suspended, "Invalid password for SUSPEND command."@)
        },
        Request::Resume(_) => if verified {
            Outcome {
                reply: "OK\n"@,
                suspended: false,
                event: Some(switch_entry(edition, false)),
            }
        } else {
            refused(suspended, "Invalid password for RESUME command."@)
        },
        Request::AddBlock { name, .. } => if verified {
            list_changed(suspended, stored, "Added dynamic block: "@ + name)
        } else {
            refused(suspended, "Invalid password for ADD_BLOCK command."@)
        },
        Request::RemoveBlock { name, .. } => if verified {
            list_changed(suspended, stored, "Removed dynamic block: "@ + name)
        } else {
            refused(suspended, "Invalid password for REMOVE_BLOCK command."@)
        },
        Request::IncompleteAdd => Outcome {
            reply: "ERROR: Invalid format. Expected: ADD_BLOCK <password> <process_name>\n"@,
            suspended,
            event: None,
        },
        Request::IncompleteRemove => Outcome {
            reply: "ERROR: Invalid format. Expected: REMOVE_BLOCK <password> <process_name>\n"@,
            suspended,
            event: None,
        },
        Request::Unknown => Outcome {
            reply: "ERROR: Unknown command\n"@,
            suspended,
            event: None,
        },
    }
}

fn refuse(suspended: bool, message: &str) -> (r: AdminOutcome)
    ensures
        r@ == refused(suspended, message@),
{
    AdminOutcome {
        reply: "ERROR: Invalid password\n".to_owned(),
        suspended,
        event: Some(AuditEvent::new(Level::Error, "unauthorized_access", message)),
    }
}

fn plain_reply(suspended: bool, reply: &str) -> (r: AdminOutcome)
    ensures
        r@ == (Outcome { reply: reply@, suspended, event: None }),
{
    AdminOutcome { reply: reply.to_owned(), suspended, event: None }
}

fn list_change(suspended: bool, stored: &Result<(), db::DbError>, message: &str) -> (r: AdminOutcome)
    ensures
        r@ == list_changed(suspended, change_text(*stored), message@),
{
    match stored {
        Ok(_) => AdminOutcome {
            reply: "OK\n".to_owned(),
            suspended,
            event: Some(AuditEvent::new(Level::Warn, "system_override", message)),
        },
        Err(e) => plain_reply(
            suspended,
            join3("ERROR: Database error: ", e.text.as_str(), "\n").as_str(),
        ),
    }
}

/// What a request comes to: `verified` tells whether its password is the
/// master password, `stored` how the change of the block list ended.
pub fn respond(
    edition: Edition,
    request: &AdminRequest,
    suspended: bool,
    verified: bool,
    stored: &Result<(), db::DbError>,
) -> (r: AdminOutcome)
    ensures
        r@ == outcome_of(edition, request@, suspended, verified, change_text(*stored)),
{
    match request {
        AdminRequest::Status => plain_reply(
            suspended,
            join3(
                "STATE: ",
                if suspended {
                    "Suspended"
                } else {
                    "Active"
                },
                "\n",
            ).as_str(),
        ),
        AdminRequest::Suspend(_) => if verified {
            AdminOutcome {
                reply: "OK\n".to_owned(),
                suspended: true,
                event: Some(switch_event(edition, true)),
            }
        } else {
            refuse(suspended, "Invalid password for SUSPEND command.")
        },
        AdminRequest::Resume(_) => if verified {
            AdminOutcome {
                reply: "OK\n".to_owned(),
                suspended: false,
                event: Some(switch_event(edition, false)),
            }
        } else {
            refuse(suspended, "Invalid password for RESUME command.")
        },
        AdminRequest::AddBlock { name, .. } => if verified {
            list_change(suspended, stored, join2("Added dynamic block: ", name.as_str()).as_str())
        } else {
            refuse(suspended, "Invalid password for ADD_BLOCK command.")
        },
        AdminRequest::RemoveBlock { name, .. } => if verified {
            list_change(suspended, stored, join2("Removed dynamic block: ", name.as_str()).as_str())
        } else {
            refuse(suspended, "Invalid password for REMOVE_BLOCK command.")
        },
        AdminRequest::IncompleteAdd => plain_reply(
            suspended,
            "ERROR: Invalid format. Expected: ADD_BLOCK <password> <process_name>\n",
        ),
        AdminRequest::IncompleteRemove => plain_reply(
            suspended,
            "ERROR: Invalid format. Expected: REMOVE_BLOCK <password> <process_name>\n",
        ),
        AdminRequest::Unknown => plain_reply(suspended, "ERROR: Unknown command\n"),
    }
}

// ---------------------------------------------------------------------------
// Serving a request
// ---------------------------------------------------------------------------

/// The verdict on a request by what a read of the stored digest has given: its
/// password belongs to the digest. Without a password there is none.
pub open spec fn verdict(request: Request, read: Option<Seq<char>>) -> bool {
    request.password() matches Some(password) && db::password_accepted(read, password)
}

/// The verdict on a request by what a read of the stored digest has given.
pub fn request_verdict(request: &AdminRequest, read: &Option<String>) -> (r: bool)
    ensures
        r == verdict(request@, text::text_of(*read)),
{
    match request {
        AdminRequest::Suspend(password) => db::accepts_password(read, password.as_str()),
        AdminRequest::Resume(password) => db::accepts_password(read, password.as_str()),
        AdminRequest::AddBlock { password, .. } => db::accepts_password(read, password.as_str()),
        AdminRequest::RemoveBlock { password, .. } => db::accepts_password(
            read,
            password.as_str(),
        ),
        _ => false,
    }
}

/// What a request does to the block list, once its password is verified and
/// the change is stored.
pub open spec fn names_after(request: Request, names: Set<Seq<char>>) -> Set<Seq<char>> {
    match request {
        Request::AddBlock { name, .. } => names.insert(name),
        Request::RemoveBlock { name, .. } => names.remove(name),
        _ => names,
    }
}

/// The request asks for a change of the block list.
pub open spec fn changes_list(request: Request) -> bool {
    request is AddBlock || request is RemoveBlock
}

/// The statement that a change of the block list is made by.
pub open spec fn change_sql(request: Request) -> Seq<char> {
    if request is AddBlock {
        sqlite::ADD_NAME@
    } else {
        sqlite::REMOVE_NAME@
    }
}

/// The process that a change of the block list is about.
pub open spec fn changed_name(request: Request) -> Seq<char> {
    match request {
        Request::AddBlock { name, .. } => name,
        Request::RemoveBlock { name, .. } => name,
        _ => Seq::empty(),
    }
}

/// What serving a request leaves in the database: everything as it was, unless
/// the password was verified and the request asks for a change. Then the one
/// statement for it was given to the database, and `stored` tells whether it
/// succeeded; the settings are as they were, and the block list is changed as
/// asked or, only where the statement failed, may be as it was.
pub open spec fn database_step(
    before: Db,
    after: Db,
    request: Request,
    verified: bool,
    stored: Result<(), Seq<char>>,
) -> bool {
    if verified && changes_list(request) {
        &&& after.executed() == before.executed().push(
            (change_sql(request), Some(changed_name(request)), stored is Ok),
        )
        &&& before.private() ==> after.config() == before.config()
        &&& before.private() ==> after.names() == names_after(request, before.names())
            || stored is Err && after.names() == before.names()
    } else {
        after == before
    }
}

/// A request has come to `outcome` where a read of the stored digest has given
/// `read`: the verdict by that read, and some end of the change that is asked
/// for, explain the outcome and what is left in the database.
pub open spec fn carried_out(
    edition: Edition,
    before: Db,
    after: Db,
    suspended: bool,
    request: Request,
    read: Option<Seq<char>>,
    outcome: Outcome,
) -> bool {
    &&& after.private() == before.private()
    &&& exists|stored: Result<(), Seq<char>>|
        #![trigger outcome_of(edition, request, suspended, verdict(request, read), stored)]
        {
            &&& outcome == outcome_of(
                edition,
                request,
                suspended,
                verdict(request, read),
                stored,
            )
            &&& database_step(before, after, request, verdict(request, read), stored)
            &&& stored matches Err(reason) ==> db::is_wording(reason)
        }
}

/// Carries a request out where a read of the stored digest has given `read`:
/// changes the block list where it is asked to and may, and says what to reply,
/// whether blocking is suspended from then on, and what to log.
pub fn carry_out(
    edition: Edition,
    database: &mut Db,
    suspended: bool,
    request: &AdminRequest,
    read: &Option<String>,
) -> (r: AdminOutcome)
    ensures
        carried_out(
            edition,
            *old(database),
            *final(database),
            suspended,
            request@,
            text::text_of(*read),
            r@,
        ),
{
    let verified = request_verdict(request, read);
    let stored: Result<(), db::DbError> = if verified {
        match request {
            AdminRequest::AddBlock { name, .. } => database.add_blocked_process(name.as_str()),
            AdminRequest::RemoveBlock { name, .. } => database.remove_blocked_process(
                name.as_str(),
            ),
            _ => Ok(()),
        }
    } else {
        Ok(())
    };
    let outcome = respond(edition, request, suspended, verified, &stored);
    proof {
        let done = change_text(stored);
        assert(outcome@ == outcome_of(edition, request@, suspended, verified, done));
        assert(database_step(*old(database), *database, request@, verified, done));
    }
    outcome
}

/// Serving a line has come to `outcome`: it is what the line's request comes to
/// by something that a read of the stored digest may give.
pub open spec fn served(
    edition: Edition,
    before: Db,
    after: Db,
    suspended: bool,
    line: Seq<char>,
    outcome: Outcome,
) -> bool {
    exists|read: Option<String>|
        {
            &&& before.may_read(#[trigger] text::text_of(read))
            &&& request_of(line).password() is Some ==> call_ensures(
                Db::stored_hash,
                (&before,),
                read,
            )
            &&& carried_out(
                edition,
                before,
                after,
                suspended,
                request_of(line),
                text::text_of(read),
                outcome,
            )
        }
}

/// Serves one line of a client: reads the stored digest where the request
/// carries a password, and carries the request out.
pub fn serve_line(edition: Edition, database: &mut Db, suspended: bool, line: &str) -> (r:
    AdminOutcome)
    ensures
        served(edition, *old(database), *final(database), suspended, line@, r@),
{
    let request = parse_request(line);
    let read = match &request {
        AdminRequest::Suspend(_) | AdminRequest::Resume(_) => database.stored_hash(),
        AdminRequest::AddBlock { .. } | AdminRequest::RemoveBlock { .. } => database.stored_hash(),
        _ => None,
    };
    assert(old(database).may_read(text::text_of(read)));
    assert(request@.password() is Some ==> call_ensures(Db::stored_hash, (old(database),), read));
    carry_out(edition, database, suspended, &request, &read)
}

// ---------------------------------------------------------------------------
// Commands
// ---------------------------------------------------------------------------

/// The line that asks for the state.
pub open spec fn status_line() -> Seq<char> {
    "STATUS\n"@
}

/// The line that asks for a suspension.
pub open spec fn suspend_line(password: Seq<char>) -> Seq<char> {
    "SUSPEND "@ + password + "\n"@
}

/// The line that asks for blocking to be resumed.
pub open spec fn resume_line(password: Seq<char>) -> Seq<char> {
    "RESUME "@ + password + "\n"@
}

/// The line that asks for a process to be blocked.
pub open spec fn add_line(password: Seq<char>, name: Seq<char>) -> Seq<char> {
    "ADD_BLOCK "@ + password + " "@ + name + "\n"@
}

/// The line that asks for a process to be unblocked.
pub open spec fn remove_line(password: Seq<char>, name: Seq<char>) -> Seq<char> {
    "REMOVE_BLOCK "@ + password + " "@ + name + "\n"@
}

/// The line that asks for the state.
pub fn status_command() -> (r: String)
    ensures
        r@ == status_line(),
{
    "STATUS\n".to_owned()
}

/// The line that asks for a suspension.
pub fn suspend_command(password: &str) -> (r: String)
    ensures
        r@ == suspend_line(password@),
{
    join3("SUSPEND ", password, "\n")
}

/// The line that asks for blocking to be resumed.
pub fn resume_command(password: &str) -> (r: String)
    ensures
        r@ == resume_line(password@),
{
    join3("RESUME ", password, "\n")
}

/// The line that asks for a process to be blocked.
pub fn add_block_command(password: &str, process_name: &str) -> (r: String)
    ensures
        r@ == add_line(password@, process_name@),
{
    join3(join3("ADD_BLOCK ", password, " ").as_str(), process_name, "\n")
}

/// The line that asks for a process to be unblocked.
pub fn remove_block_command(password: &str, process_name: &str) -> (r: String)
    ensures
        r@ == remove_line(password@, process_name@),
{
    join3(join3("REMOVE_BLOCK ", password, " ").as_str(), process_name, "\n")
}

// ---------------------------------------------------------------------------
// Laws
// ---------------------------------------------------------------------------

/// The core service understands `STATUS` as it is sent.
pub proof fn law_status_line_understood()
    ensures
        request_of(status_line()) == Request::Status,
{
    reveal_strlit("STATUS");
    reveal_strlit("STATUS\n");
    reveal_strlit("\n");
    let s = "STATUS"@;
    assert(status_line() == s + "\n"@);
    text::lemma_trim_white_suffix(s, "\n"@);
    assert(!text::is_white(s.last()));
}

/// `head` followed by a password and a line end, trimmed.
proof fn lemma_secret_line(head: Seq<char>, password: Seq<char>)
    requires
        head.len() > 0,
        !text::is_white(head[0]),
        password.len() > 0,
        !text::is_white(password.last()),
    ensures
        text::trimmed(head + password + "\n"@) == head + password,
        text::has_prefix(head + password, head),
        (head + password).skip(head.len() as int) == password,
{
    reveal_strlit("\n");
    let s = head + password;
    text::lemma_trim_white_suffix(s, "\n"@);
    assert(s.last() == password.last());
    assert(s.subrange(0, head.len() as int) == head);
    assert(s.skip(head.len() as int) == password);
}

/// The core service understands a request to suspend, and takes the password
/// for what was entered, unless that is empty or ends in white space.
pub proof fn law_suspend_line_understood(password: Seq<char>)
    requires
        password.len() > 0,
        !text::is_white(password.last()),
    ensures
        request_of(suspend_line(password)) == Request::Suspend(password),
{
    reveal_strlit("SUSPEND ");
    reveal_strlit("STATUS");
    lemma_secret_line("SUSPEND "@, password);
    assert(("SUSPEND "@ + password)[1] == 'U');
}

/// The core service understands a request to resume, and takes the password
/// for what was entered, unless that is empty or ends in white space.
pub proof fn law_resume_line_understood(password: Seq<char>)
    requires
        password.len() > 0,
        !text::is_white(password.last()),
    ensures
        request_of(resume_line(password)) == Request::Resume(password),
{
    reveal_strlit("RESUME ");
    reveal_strlit("SUSPEND ");
    reveal_strlit("STATUS");
    lemma_secret_line("RESUME "@, password);
    let s = "RESUME "@ + password;
    assert(s[0] == 'R');
    assert(text::has_prefix(s, "SUSPEND "@) ==> s.subrange(0, 8)[0] == 'S');
}

/// A password and a name behind `head`, trimmed and parted again.
proof fn lemma_name_line(head: Seq<char>, password: Seq<char>, name: Seq<char>)
    requires
        head.len() > 0,
        !text::is_white(head[0]),
        !password.contains(' '),
        text::trimmed(name).len() > 0,
    ensures
        ({
            let s = head + password + " "@ + text::trim_end(name);
            &&& text::trimmed(head + password + " "@ + name + "\n"@) == s
            &&& s.len() > head.len()
            &&& text::has_prefix(s, head)
            &&& password_and_name(s.skip(head.len() as int)) == Some(
                (password, text::trimmed(name)),
            )
        }),
{
    reveal_strlit("\n");
    reveal_strlit(" ");
    let front = head + password + " "@;
    let full = front + name;
    let s = front + text::trim_end(name);
    text::lemma_trimmed_not_empty(name);
    text::lemma_trim_white_suffix(full, "\n"@);
    text::lemma_trim_end_join(front, name);
    assert(s.subrange(0, head.len() as int) == head);
    let rest = s.skip(head.len() as int);
    let k = password.len() as int;
    assert(rest == password + " "@ + text::trim_end(name));
    text::lemma_position_from(rest, " "@, 0);
    assert(rest.subrange(k, k + 1) == " "@);
    assert(text::occurs_at(rest, " "@, k));
    assert forall|j: int| 0 <= j < k implies !#[trigger] text::occurs_at(rest, " "@, j) by {
        if text::occurs_at(rest, " "@, j) {
            assert(rest.subrange(j, j + 1)[0] == ' ');
            assert(password[j] == ' ');
        }
    }
    assert(text::position(rest, " "@) == Some(k));
    assert(rest.take(k) == password);
    assert(rest.skip(k + 1) == text::trim_end(name));
    text::lemma_trimmed_of_trim_end(name);
}

/// The core service understands a request to block a process: the password is
/// what was entered, unless it holds a space, and the process is what was
/// entered without the white space round it, unless nothing is left of it.
pub proof fn law_add_line_understood(password: Seq<char>, name: Seq<char>)
    requires
        !password.contains(' '),
        text::trimmed(name).len() > 0,
    ensures
        request_of(add_line(password, name)) == (Request::AddBlock {
            password,
            name: text::trimmed(name),
        }),
{
    reveal_strlit("ADD_BLOCK ");
    reveal_strlit("SUSPEND ");
    reveal_strlit("RESUME ");
    reveal_strlit("STATUS");
    lemma_name_line("ADD_BLOCK "@, password, name);
    let s = "ADD_BLOCK "@ + password + " "@ + text::trim_end(name);
    assert(s[0] == 'A');
    assert("STATUS"@[0] == 'S');
    assert(text::has_prefix(s, "SUSPEND "@) ==> s.subrange(0, 8)[0] == 'S');
    assert(text::has_prefix(s, "RESUME "@) ==> s.subrange(0, 7)[0] == 'R');
}

/// The core service understands a request to unblock a process: the password
/// is what was entered, unless it holds a space, and the process is what was
/// entered without the white space round it, unless nothing is left of it.
pub proof fn law_remove_line_understood(password: Seq<char>, name: Seq<char>)
    requires
        !password.contains(' '),
        text::trimmed(name).len() > 0,
    ensures
        request_of(remove_line(password, name)) == (Request::RemoveBlock {
            password,
            name: text::trimmed(name),
        }),
{
    reveal_strlit("REMOVE_BLOCK ");
    reveal_strlit("ADD_BLOCK ");
    reveal_strlit("SUSPEND ");
    reveal_strlit("RESUME ");
    reveal_strlit("STATUS");
    lemma_name_line("REMOVE_BLOCK "@, password, name);
    let s = "REMOVE_BLOCK "@ + password + " "@ + text::trim_end(name);
    assert(s[0] == 'R' && s[2] == 'M');
    assert("STATUS"@[0] == 'S');
    assert(text::has_prefix(s, "SUSPEND "@) ==> s.subrange(0, 8)[0] == 'S');
    assert(text::has_prefix(s, "RESUME "@) ==> s.subrange(0, 7)[2] == 'S');
    assert(text::has_prefix(s, "ADD_BLOCK "@) ==> s.subrange(0, 10)[0] == 'A');
}

/// Nothing changes without the master password: where it is not verified,
/// blocking stays as it was, the database stays as it was, and a request that
/// needs the password is answered as refused and logged as such.
pub proof fn law_no_change_without_password(
    edition: Edition,
    before: Db,
    after: Db,
    line: Seq<char>,
    suspended: bool,
    stored: Result<(), Seq<char>>,
)
    requires
        database_step(before, after, request_of(line), false, stored),
    ensures
        after == before,
        outcome_of(edition, request_of(line), suspended, false, stored).suspended == suspended,
        request_of(line).password() is Some ==> {
            let outcome = outcome_of(edition, request_of(line), suspended, false, stored);
            &&& outcome.reply == "ERROR: Invalid password\n"@
            &&& outcome.event matches Some(e) && e.level == Level::Error && e.category
                == "unauthorized_access"@
        },
{
}

/// Only a request whose password is verified changes anything: whether blocking
/// is suspended only by a suspension or a resumption, the database only by a
/// change of the block list. No request changes the settings, where the master
/// password is, or gives the statement that sets it.
pub proof fn law_what_requests_change(
    edition: Edition,
    before: Db,
    after: Db,
    suspended: bool,
    request: Request,
    read: Option<Seq<char>>,
    outcome: Outcome,
)
    requires
        carried_out(edition, before, after, suspended, request, read, outcome),
    ensures
        outcome.suspended != suspended ==> verdict(request, read) && (request is Suspend
            || request is Resume),
        after != before ==> verdict(request, read) && changes_list(request),
        after.executed() == before.executed() || exists|done: bool|
            after.executed() == #[trigger] before.executed().push(
                (change_sql(request), Some(changed_name(request)), done),
            ),
        change_sql(request) != sqlite::SET_PASSWORD@,
        before.private() ==> after.config() == before.config(),
        before.private() && after.names() != before.names() ==> after.names() == names_after(
            request,
            before.names(),
        ),
{
    reveal_strlit("INSERT OR IGNORE INTO blocked_processes (name) VALUES (?1)");
    reveal_strlit("DELETE FROM blocked_processes WHERE name = ?1");
    reveal_strlit("INSERT OR REPLACE INTO config (key, value) VALUES ('master_password', ?1)");
    assert(sqlite::ADD_NAME@.len() == 58);
    assert(sqlite::REMOVE_NAME@.len() == 45);
    assert(sqlite::SET_PASSWORD@.len() == 73);
}

/// Only a suspension or a resumption whose password is verified changes
/// whether blocking is suspended, and it does so as asked.
pub proof fn law_suspension_follows_requests(
    edition: Edition,
    request: Request,
    suspended: bool,
    verified: bool,
    stored: Result<(), Seq<char>>,
)
    ensures
        outcome_of(edition, request, suspended, verified, stored).suspended == (if verified
            && request is Suspend {
            true
        } else if verified && request is Resume {
            false
        } else {
            suspended
        }),
{
}

/// Every reply is a line of its own: it ends in a line end.
pub proof fn law_reply_is_a_line(
    edition: Edition,
    request: Request,
    suspended: bool,
    verified: bool,
    stored: Result<(), Seq<char>>,
)
    ensures
        outcome_of(edition, request, suspended, verified, stored).reply.len() > 0,
        outcome_of(edition, request, suspended, verified, stored).reply.last() == '\n',
{
    reveal_strlit("\n");
    reveal_strlit("OK\n");
    reveal_strlit("ERROR: Invalid password\n");
    reveal_strlit("ERROR: Unknown command\n");
    reveal_strlit("ERROR: Invalid format. Expected: ADD_BLOCK <password> <process_name>\n");
    reveal_strlit("ERROR: Invalid format. Expected: REMOVE_BLOCK <password> <process_name>\n");
}

/// How the words of a line make a request: a line is a question for the state
/// if it says so and nothing else; a suspension or a resumption takes all that
/// stands behind its word for the password; a change of the block list takes
/// the password up to the first space, and for the process what stands behind
/// it, without white space round it.
pub proof fn law_words_of_a_line(line: Seq<char>)
    ensures
        ({
            let input = text::trimmed(line);
            let request = request_of(line);
            &&& request is Status <==> input == "STATUS"@
            &&& forall|p: Seq<char>|
                request == Request::Suspend(p) <==> input == #[trigger] ("SUSPEND "@ + p)
            &&& forall|p: Seq<char>|
                request == Request::Resume(p) <==> input == #[trigger] ("RESUME "@ + p)
            &&& request is AddBlock || request is IncompleteAdd <==> text::has_prefix(
                input,
                "ADD_BLOCK "@,
            )
            &&& request is RemoveBlock || request is IncompleteRemove <==> text::has_prefix(
                input,
                "REMOVE_BLOCK "@,
            )
        }),
{
    let input = text::trimmed(line);
    let request = request_of(line);
    reveal_strlit("STATUS");
    reveal_strlit("SUSPEND ");
    reveal_strlit("RESUME ");
    reveal_strlit("ADD_BLOCK ");
    reveal_strlit("REMOVE_BLOCK ");
    assert forall|p: Seq<char>| request == Request::Suspend(p) <==> input == #[trigger] (
    "SUSPEND "@ + p) by {
        if request == Request::Suspend(p) {
            assert(input =~= input.subrange(0, 8) + input.skip(8));
        }
        if input == "SUSPEND "@ + p {
            assert(input.subrange(0, 8) =~= "SUSPEND "@);
            assert(input.skip(8) =~= p);
            assert(input[1] == 'U');
        }
    }
    assert forall|p: Seq<char>| request == Request::Resume(p) <==> input == #[trigger] (
    "RESUME "@ + p) by {
        if request == Request::Resume(p) {
            assert(input =~= input.subrange(0, 7) + input.skip(7));
        }
        if input == "RESUME "@ + p {
            assert(input.subrange(0, 7) =~= "RESUME "@);
            assert(input.skip(7) =~= p);
            assert(input[0] == 'R');
            assert(text::has_prefix(input, "SUSPEND "@) ==> input.subrange(0, 8)[0] == 'S');
        }
    }
    lemma_first_letters(input);
}

/// The words of the commands are told apart by their letters.
proof fn lemma_first_letters(input: Seq<char>)
    ensures
        input == "STATUS"@ ==> input.len() == 6 && input[1] == 'T',
        text::has_prefix(input, "SUSPEND "@) ==> input.len() >= 8 && input[0] == 'S' && input[1]
            == 'U',
        text::has_prefix(input, "RESUME "@) ==> input.len() >= 7 && input[0] == 'R' && input[2]
            == 'S',
        text::has_prefix(input, "ADD_BLOCK "@) ==> input.len() >= 10 && input[0] == 'A',
        text::has_prefix(input, "REMOVE_BLOCK "@) ==> input.len() >= 13 && input[0] == 'R'
            && input[2] == 'M',
        input == "STATUS"@ ==> input[0] == 'S',
{
    reveal_strlit("STATUS");
    reveal_strlit("SUSPEND ");
    reveal_strlit("RESUME ");
    reveal_strlit("ADD_BLOCK ");
    reveal_strlit("REMOVE_BLOCK ");
    if text::has_prefix(input, "SUSPEND "@) {
        assert(input.subrange(0, 8)[0] == input[0] && input.subrange(0, 8)[1] == input[1]);
    }
    if text::has_prefix(input, "RESUME "@) {
        assert(input.subrange(0, 7)[0] == input[0] && input.subrange(0, 7)[2] == input[2]);
    }
    if text::has_prefix(input, "ADD_BLOCK "@) {
        assert(input.subrange(0, 10)[0] == input[0]);
    }
    if text::has_prefix(input, "REMOVE_BLOCK "@) {
        assert(input.subrange(0, 13)[0] == input[0] && input.subrange(0, 13)[2] == input[2]);
    }
}

/// A change of the block list parts its words at the first space behind the
/// command: what stands before it is the password, what stands behind it,
/// without white space round it, the process; without a space it is incomplete.
pub proof fn law_words_of_a_change(line: Seq<char>, password: Seq<char>, tail: Seq<char>)
    requires
        !password.contains(' '),
    ensures
        text::trimmed(line) == "ADD_BLOCK "@ + password + " "@ + tail ==> request_of(line) == (
        Request::AddBlock { password, name: text::trimmed(tail) }),
        text::trimmed(line) == "REMOVE_BLOCK "@ + password + " "@ + tail ==> request_of(line) == (
        Request::RemoveBlock { password, name: text::trimmed(tail) }),
        text::trimmed(line) == "ADD_BLOCK "@ + password ==> request_of(line)
            == Request::IncompleteAdd,
        text::trimmed(line) == "REMOVE_BLOCK "@ + password ==> request_of(line)
            == Request::IncompleteRemove,
{
    let input = text::trimmed(line);
    lemma_first_letters(input);
    reveal_strlit("ADD_BLOCK ");
    reveal_strlit("REMOVE_BLOCK ");
    lemma_parted(password, tail);
    let rest = password + " "@ + tail;
    if input == "ADD_BLOCK "@ + password + " "@ + tail {
        assert(input.subrange(0, 10) =~= "ADD_BLOCK "@);
        assert(input.skip(10) =~= rest);
    }
    if input == "REMOVE_BLOCK "@ + password + " "@ + tail {
        assert(input.subrange(0, 13) =~= "REMOVE_BLOCK "@);
        assert(input.skip(13) =~= rest);
    }
    if input == "ADD_BLOCK "@ + password {
        assert(input.subrange(0, 10) =~= "ADD_BLOCK "@);
        assert(input.skip(10) =~= password);
    }
    if input == "REMOVE_BLOCK "@ + password {
        assert(input.subrange(0, 13) =~= "REMOVE_BLOCK "@);
        assert(input.skip(13) =~= password);
    }
}

proof fn lemma_parted(password: Seq<char>, tail: Seq<char>)
    requires
        !password.contains(' '),
    ensures
        password_and_name(password + " "@ + tail) == Some((password, text::trimmed(tail))),
        password_and_name(password) is None,
{
    reveal_strlit(" ");
    let rest = password + " "@ + tail;
    let k = password.len() as int;
    text::lemma_position_from(rest, " "@, 0);
    text::lemma_position_from(password, " "@, 0);
    assert(rest.subrange(k, k + 1) =~= " "@);
    assert(text::occurs_at(rest, " "@, k));
    assert forall|j: int| 0 <= j < k implies !#[trigger] text::occurs_at(rest, " "@, j) by {
        if text::occurs_at(rest, " "@, j) {
            assert(rest.subrange(j, j + 1)[0] == ' ');
            assert(password[j] == ' ');
        }
    }
    assert(text::position(rest, " "@) == Some(k));
    assert(rest.take(k) =~= password);
    assert(rest.skip(k + 1) =~= tail);
    if let Some(j) = text::position(password, " "@) {
        assert(password.subrange(j, j + 1)[0] == ' ');
        assert(password[j] == ' ');
    }
}

/// A password is the master password exactly if its SHA-256 digest is that of
/// the password that was set, whichever command it comes with; the one that was
/// set is, letter by letter. Without a stored digest none is.
pub proof fn law_the_digest_decides(
    request: Request,
    password: Seq<char>,
    set: Seq<char>,
    name: Seq<char>,
)
    requires
        request == Request::Suspend(password) || request == Request::Resume(password) || request
            == (Request::AddBlock { password, name }) || request == (Request::RemoveBlock {
            password,
            name,
        }),
    ensures
        verdict(request, Some(digest::password_hash(set))) <==> digest::sha256_digest(
            vstd::utf8::encode_utf8(password),
        ) == digest::sha256_digest(vstd::utf8::encode_utf8(set)),
        password == set ==> verdict(request, Some(digest::password_hash(set))),
        !verdict(request, None),
{
    let a = digest::sha256_digest(vstd::utf8::encode_utf8(password));
    let b = digest::sha256_digest(vstd::utf8::encode_utf8(set));
    if digest::password_hash(password) == digest::password_hash(set) {
        numbers::law_lower_hex_injective(a, b);
    }
}

/// A suspension or a resumption: with the password that belongs to the stored
/// digest it is carried out and answered so, else it is refused and logged as
/// unauthorized; the database is left alone either way.
pub proof fn law_switching(
    edition: Edition,
    before: Db,
    after: Db,
    suspended: bool,
    suspend: bool,
    password: Seq<char>,
    read: Option<Seq<char>>,
    outcome: Outcome,
)
    requires
        carried_out(
            edition,
            before,
            after,
            suspended,
            if suspend {
                Request::Suspend(password)
            } else {
                Request::Resume(password)
            },
            read,
            outcome,
        ),
    ensures
        after == before,
        read == Some(digest::password_hash(password)) ==> {
            &&& outcome.reply == "OK\n"@
            &&& outcome.suspended == suspend
            &&& outcome.event matches Some(e) && e.category == "system_override"@ && e.level == (
            if !suspend && edition == Edition::Networked {
                Level::Info
            } else {
                Level::Warn
            }) && e.message == (match edition {
                Edition::Networked => if suspend {
                    "System SUSPENDED via Admin pipe."@
                } else {
                    "System RESUMED via Admin pipe."@
                },
                Edition::Plain => if suspend {
                    "System Suspend successfully activated via master password override."@
                } else {
                    "System Resume successfully activated via master password."@
                },
            })
        },
        read != Some(digest::password_hash(password)) ==> {
            &&& outcome.reply == "ERROR: Invalid password\n"@
            &&& outcome.suspended == suspended
            &&& outcome.event matches Some(e) && e.category == "unauthorized_access"@ && e.level
                == Level::Error && e.message == "Invalid password for "@ + (if suspend {
                "SUSPEND"@
            } else {
                "RESUME"@
            }) + " command."@
        },
{
    reveal_strlit("Invalid password for SUSPEND command.");
    reveal_strlit("Invalid password for RESUME command.");
    reveal_strlit("Invalid password for ");
    reveal_strlit("SUSPEND");
    reveal_strlit("RESUME");
    reveal_strlit(" command.");
    assert("Invalid password for SUSPEND command."@ =~= "Invalid password for "@ + "SUSPEND"@
        + " command."@);
    assert("Invalid password for RESUME command."@ =~= "Invalid password for "@ + "RESUME"@
        + " command."@);
}

/// A change of the block list with the password that belongs to the stored
/// digest, whether blocking is suspended or not: the one statement for it was
/// given, and it is answered OK exactly where that succeeded; the process is
/// then blocked, or no longer blocked, and nothing else has changed.
pub proof fn law_changing_the_list(
    edition: Edition,
    before: Db,
    after: Db,
    suspended: bool,
    add: bool,
    password: Seq<char>,
    name: Seq<char>,
    outcome: Outcome,
)
    requires
        carried_out(
            edition,
            before,
            after,
            suspended,
            if add {
                Request::AddBlock { password, name }
            } else {
                Request::RemoveBlock { password, name }
            },
            Some(digest::password_hash(password)),
            outcome,
        ),
    ensures
        outcome.suspended == suspended,
        after.private() == before.private(),
        after.executed() == before.executed().push(
            (
                if add {
                    sqlite::ADD_NAME@
                } else {
                    sqlite::REMOVE_NAME@
                },
                Some(name),
                outcome.reply == "OK\n"@,
            ),
        ),
        before.private() ==> after.config() == before.config(),
        before.private() && outcome.reply == "OK\n"@ ==> after.names() == (if add {
            before.names().insert(name)
        } else {
            before.names().remove(name)
        }),
        outcome.reply == "OK\n"@ ==> (outcome.event matches Some(e) && e.level == Level::Warn
            && e.category == "system_override"@ && e.message == (if add {
            "Added"@
        } else {
            "Removed"@
        }) + " dynamic block: "@ + name),
        outcome.reply != "OK\n"@ ==> outcome.event is None && exists|reason: Seq<char>|
            db::is_wording(reason) && outcome.reply == "ERROR: Database error: "@ + #[trigger] (
            reason + "\n"@),
{
    reveal_strlit("OK\n");
    reveal_strlit("ERROR: Database error: ");
    reveal_strlit("\n");
    reveal_strlit("Added");
    reveal_strlit("Removed");
    reveal_strlit(" dynamic block: ");
    reveal_strlit("Added dynamic block: ");
    reveal_strlit("Removed dynamic block: ");
    assert("Added dynamic block: "@ =~= "Added"@ + " dynamic block: "@);
    assert("Removed dynamic block: "@ =~= "Removed"@ + " dynamic block: "@);
    let request = if add {
        Request::AddBlock { password, name }
    } else {
        Request::RemoveBlock { password, name }
    };
    let read = Some(digest::password_hash(password));
    let stored = choose|stored: Result<(), Seq<char>>|
        #![trigger outcome_of(edition, request, suspended, verdict(request, read), stored)]
        {
            &&& outcome == outcome_of(edition, request, suspended, verdict(request, read), stored)
            &&& database_step(before, after, request, verdict(request, read), stored)
            &&& stored matches Err(reason) ==> db::is_wording(reason)
        };
    if let Err(e) = stored {
        assert(outcome.reply[0] == 'E');
        assert("OK\n"@[0] == 'O');
        assert(outcome.reply =~= "ERROR: Database error: "@ + (e + "\n"@));
    }
}

/// A change of the block list with another password is refused and logged as
/// unauthorized, and the database is left alone.
pub proof fn law_changing_the_list_is_refused(
    edition: Edition,
    before: Db,
    after: Db,
    suspended: bool,
    add: bool,
    password: Seq<char>,
    name: Seq<char>,
    read: Option<Seq<char>>,
    outcome: Outcome,
)
    requires
        carried_out(
            edition,
            before,
            after,
            suspended,
            if add {
                Request::AddBlock { password, name }
            } else {
                Request::RemoveBlock { password, name }
            },
            read,
            outcome,
        ),
        read != Some(digest::password_hash(password)),
    ensures
        after == before,
        outcome.suspended == suspended,
        outcome.reply == "ERROR: Invalid password\n"@,
        outcome.event matches Some(e) && e.category == "unauthorized_access"@ && e.level
            == Level::Error && e.message == "Invalid password for "@ + (if add {
            "ADD_BLOCK"@
        } else {
            "REMOVE_BLOCK"@
        }) + " command."@,
{
    reveal_strlit("Invalid password for ADD_BLOCK command.");
    reveal_strlit("Invalid password for REMOVE_BLOCK command.");
    reveal_strlit("Invalid password for ");
    reveal_strlit("ADD_BLOCK");
    reveal_strlit("REMOVE_BLOCK");
    reveal_strlit(" command.");
    assert("Invalid password for ADD_BLOCK command."@ =~= "Invalid password for "@
        + "ADD_BLOCK"@ + " command."@);
    assert("Invalid password for REMOVE_BLOCK command."@ =~= "Invalid password for "@
        + "REMOVE_BLOCK"@ + " command."@);
}

/// What needs no password changes nothing and is logged nowhere: the state is
/// told, and what is incomplete or unknown is answered so.
pub proof fn law_answers_without_a_password(
    edition: Edition,
    before: Db,
    after: Db,
    suspended: bool,
    request: Request,
    read: Option<Seq<char>>,
    outcome: Outcome,
)
    requires
        carried_out(edition, before, after, suspended, request, read, outcome),
        !(request is Suspend),
        !(request is Resume),
        !(request is AddBlock),
        !(request is RemoveBlock),
    ensures
        after == before,
        outcome.suspended == suspended,
        outcome.event is None,
        request is Status ==> (outcome.reply == "STATE: Suspended\n"@ <==> suspended) && (
        outcome.reply == "STATE: Active\n"@ <==> !suspended),
        request is IncompleteAdd ==> outcome.reply
            == "ERROR: Invalid format. Expected: ADD_BLOCK <password> <process_name>\n"@,
        request is IncompleteRemove ==> outcome.reply
            == "ERROR: Invalid format. Expected: REMOVE_BLOCK <password> <process_name>\n"@,
        request is Unknown ==> outcome.reply == "ERROR: Unknown command\n"@,
{
    reveal_strlit("STATE: ");
    reveal_strlit("Suspended");
    reveal_strlit("Active");
    reveal_strlit("\n");
    reveal_strlit("STATE: Suspended\n");
    reveal_strlit("STATE: Active\n");
    assert("STATE: Suspended\n"@ =~= "STATE: "@ + "Suspended"@ + "\n"@);
    assert("STATE: Active\n"@ =~= "STATE: "@ + "Active"@ + "\n"@);
    assert("STATE: Suspended\n"@.len() != "STATE: Active\n"@.len());
}

/// From the line to the outcome: a line that asks for a suspension, or else for
/// a resumption, with the master password is carried out, unless the stored
/// digest could not be read.
pub proof fn law_served_switch(
    edition: Edition,
    before: Db,
    after: Db,
    suspended: bool,
    suspend: bool,
    password: Seq<char>,
    outcome: Outcome,
)
    requires
        served(
            edition,
            before,
            after,
            suspended,
            (if suspend {
                "SUSPEND "@
            } else {
                "RESUME "@
            }) + password + "\n"@,
            outcome,
        ),
        password.len() > 0,
        !text::is_white(password.last()),
        before.private(),
        before.config().contains_key("master_password"@),
        before.config()["master_password"@] == digest::password_hash(password),
    ensures
        after == before,
        outcome.reply == "OK\n"@ && outcome.suspended == suspend || outcome.reply
            == "ERROR: Invalid password\n"@ && outcome.suspended == suspended && call_ensures(
            Db::stored_hash,
            (&before,),
            None::<String>,
        ),
{
    law_suspend_line_understood(password);
    law_resume_line_understood(password);
    let line = (if suspend {
        "SUSPEND "@
    } else {
        "RESUME "@
    }) + password + "\n"@;
    let request = if suspend {
        Request::Suspend(password)
    } else {
        Request::Resume(password)
    };
    assert(request_of(line) == request);
    let read = choose|read: Option<String>|
        {
            &&& before.may_read(#[trigger] text::text_of(read))
            &&& request_of(line).password() is Some ==> call_ensures(
                Db::stored_hash,
                (&before,),
                read,
            )
            &&& carried_out(
                edition,
                before,
                after,
                suspended,
                request_of(line),
                text::text_of(read),
                outcome,
            )
        };
    law_switching(
        edition,
        before,
        after,
        suspended,
        suspend,
        password,
        text::text_of(read),
        outcome,
    );
}

/// From the line to the outcome: a line that asks for a process to be blocked,
/// or else to be unblocked, with the master password is carried out, unless the
/// stored digest could not be read or the statement failed.
pub proof fn law_served_change(
    edition: Edition,
    before: Db,
    after: Db,
    suspended: bool,
    add: bool,
    password: Seq<char>,
    name: Seq<char>,
    outcome: Outcome,
)
    requires
        served(
            edition,
            before,
            after,
            suspended,
            (if add {
                "ADD_BLOCK "@
            } else {
                "REMOVE_BLOCK "@
            }) + password + " "@ + name + "\n"@,
            outcome,
        ),
        !password.contains(' '),
        text::trimmed(name).len() > 0,
        before.private(),
        before.config().contains_key("master_password"@),
        before.config()["master_password"@] == digest::password_hash(password),
    ensures
        outcome.suspended == suspended,
        after.config() == before.config(),
        outcome.reply == "OK\n"@ ==> after.names() == (if add {
            before.names().insert(text::trimmed(name))
        } else {
            before.names().remove(text::trimmed(name))
        }) && after.executed() == before.executed().push(
            (
                if add {
                    sqlite::ADD_NAME@
                } else {
                    sqlite::REMOVE_NAME@
                },
                Some(text::trimmed(name)),
                true,
            ),
        ),
        outcome.reply != "OK\n"@ ==> call_ensures(Db::stored_hash, (&before,), None::<String>)
            || after.executed() == before.executed().push(
            (
                if add {
                    sqlite::ADD_NAME@
                } else {
                    sqlite::REMOVE_NAME@
                },
                Some(text::trimmed(name)),
                false,
            ),
        ),
{
    law_add_line_understood(password, name);
    law_remove_line_understood(password, name);
    let line = (if add {
        "ADD_BLOCK "@
    } else {
        "REMOVE_BLOCK "@
    }) + password + " "@ + name + "\n"@;
    let read = choose|read: Option<String>|
        {
            &&& before.may_read(#[trigger] text::text_of(read))
            &&& request_of(line).password() is Some ==> call_ensures(
                Db::stored_hash,
                (&before,),
                read,
            )
            &&& carried_out(
                edition,
                before,
                after,
                suspended,
                request_of(line),
                text::text_of(read),
                outcome,
            )
        };
    reveal_strlit("OK\n");
    reveal_strlit("ERROR: Invalid password\n");
    assert("OK\n"@.len() == 3 && "ERROR: Invalid password\n"@.len() == 24);
    if read is Some {
        law_changing_the_list(
            edition,
            before,
            after,
            suspended,
            add,
            password,
            text::trimmed(name),
            outcome,
        );
    } else {
        law_changing_the_list_is_refused(
            edition,
            before,
            after,
            suspended,
            add,
            password,
            text::trimmed(name),
            None,
            outcome,
        );
    }
}

/// What is known of a request and of its outcome by their texts is what stands
/// in them.
pub proof fn law_requests_are_seen_whole(request: AdminRequest, outcome: AdminOutcome)
    ensures
        request is Status <==> request@ is Status,
        request is IncompleteAdd <==> request@ is IncompleteAdd,
        request is IncompleteRemove <==> request@ is IncompleteRemove,
        request is Unknown <==> request@ is Unknown,
        request matches AdminRequest::Suspend(p) ==> request@ == Request::Suspend(p@),
        request matches AdminRequest::Resume(p) ==> request@ == Request::Resume(p@),
        request matches AdminRequest::AddBlock { password, name } ==> request@ == (
        Request::AddBlock { password: password@, name: name@ }),
        request matches AdminRequest::RemoveBlock { password, name } ==> request@ == (
        Request::RemoveBlock { password: password@, name: name@ }),
        outcome@.reply == outcome.reply@,
        outcome@.suspended == outcome.suspended,
        outcome.event is None <==> outcome@.event is None,
        outcome.event matches Some(e) ==> outcome@.event == Some(
            AuditEntry { level: e.level, category: e.category@, message: e.message@ },
        ),
{
}

/// Why a change of the block list failed is told as the database words it.
pub proof fn law_database_errors_are_told(
    edition: Edition,
    suspended: bool,
    password: Seq<char>,
    name: Seq<char>,
    e: db::DbError,
)
    ensures
        outcome_of(
            edition,
            Request::AddBlock { password, name },
            suspended,
            true,
            change_text(Err(e)),
        ).reply == "ERROR: Database error: "@ + e.text@ + "\n"@,
        outcome_of(
            edition,
            Request::RemoveBlock { password, name },
            suspended,
            true,
            change_text(Err(e)),
        ).reply == "ERROR: Database error: "@ + e.text@ + "\n"@,
        change_text(Ok(())) is Ok,
{
}

/// Whatever line comes: a question for the state is answered by it, an unknown
/// command is answered so, and only the lines of the four commands can change
/// anything, each only what it is for, and only with a password whose digest was
/// read from the database.
pub proof fn law_served_lines(
    edition: Edition,
    before: Db,
    after: Db,
    suspended: bool,
    line: Seq<char>,
    outcome: Outcome,
)
    requires
        served(edition, before, after, suspended, line, outcome),
    ensures
        ({
            let input = text::trimmed(line);
            let switches = "SUSPEND "@.is_prefix_of(input) || "RESUME "@.is_prefix_of(input);
            let changes = "ADD_BLOCK "@.is_prefix_of(input) || "REMOVE_BLOCK "@.is_prefix_of(
                input,
            );
            &&& input == "STATUS"@ ==> outcome.reply == (if suspended {
                "STATE: Suspended\n"@
            } else {
                "STATE: Active\n"@
            }) && outcome.event is None
            &&& input != "STATUS"@ && !switches && !changes ==> outcome.reply
                == "ERROR: Unknown command\n"@ && outcome.event is None
            &&& outcome.suspended != suspended ==> switches
            &&& after != before ==> changes
            &&& outcome.suspended != suspended || after != before || outcome.reply == "OK\n"@
                ==> exists|read: Option<String>, password: Seq<char>|
                {
                    &&& #[trigger] call_ensures(Db::stored_hash, (&before,), read)
                    &&& read is Some && read->0@ == #[trigger] digest::password_hash(password)
                    &&& request_of(line) == Request::Suspend(password) || request_of(line)
                        == Request::Resume(password) || (request_of(line) matches Request::AddBlock {
                        password: p,
                        ..
                    } && p == password) || (request_of(line) matches Request::RemoveBlock {
                        password: p,
                        ..
                    } && p == password)
                }
        }),
{
    let input = text::trimmed(line);
    let request = request_of(line);
    law_words_of_a_line(line);
    lemma_first_letters(input);
    let read = choose|read: Option<String>|
        {
            &&& before.may_read(#[trigger] text::text_of(read))
            &&& request_of(line).password() is Some ==> call_ensures(
                Db::stored_hash,
                (&before,),
                read,
            )
            &&& carried_out(
                edition,
                before,
                after,
                suspended,
                request_of(line),
                text::text_of(read),
                outcome,
            )
        };
    reveal_strlit("OK\n");
    reveal_strlit("ERROR: Invalid password\n");
    reveal_strlit("ERROR: Unknown command\n");
    reveal_strlit("ERROR: Invalid format. Expected: ADD_BLOCK <password> <process_name>\n");
    reveal_strlit("ERROR: Invalid format. Expected: REMOVE_BLOCK <password> <process_name>\n");
    reveal_strlit("STATE: ");
    assert("OK\n"@[0] == 'O' && "STATE: "@[0] == 'S');
    if request.password() is None {
        law_answers_without_a_password(
            edition,
            before,
            after,
            suspended,
            request,
            text::text_of(read),
            outcome,
        );
        if request is Status {
            assert(outcome.reply[0] == 'S');
        } else {
            assert(outcome.reply[0] == 'E');
        }
    } else {
        let password = request.password()->0;
        assert(call_ensures(Db::stored_hash, (&before,), read));
        assert(digest::password_hash(password) == digest::password_hash(password));
        if text::text_of(read) != Some(digest::password_hash(password)) {
            assert(!verdict(request, text::text_of(read)));
            assert("ERROR: Invalid password\n"@[0] == 'E');
        }
    }
}

} // verus!
