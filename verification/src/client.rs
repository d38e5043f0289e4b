//! The tray agent's side of the administration protocol.

use vstd::prelude::*;

use crate::admin;
use crate::network::Edition;
use crate::text;
use crate::text::eq_ignore_ascii_case;
use crate::text::join2;
use crate::text::replace;
use crate::text::same;
use crate::text::strip_prefix;
use crate::text::trim;
use crate::translate;

verus! {

/// The state of the protection as a client sees it.
#[derive(Debug, Clone, Copy, PartialEq, Eq, Structural)]
pub enum SystemStatus {
    Active,
    Suspended,
    Disconnected,
}

impl SystemStatus {
    /// The Russian name of the state.
    pub open spec fn name_ru(self) -> Seq<char> {
        match self {
            SystemStatus::Active => "АКТИВЕН"@,
            SystemStatus::Suspended => "ПРИОСТАНОВЛЕН"@,
            SystemStatus::Disconnected => "ОТКЛЮЧЕН"@,
        }
    }

    /// The Russian name of the state.
    pub fn to_string_ru(&self) -> (r: &'static str)
        ensures
            r@ == self.name_ru(),
    {
        match self {
            SystemStatus::Active => "АКТИВЕН",
            SystemStatus::Suspended => "ПРИОСТАНОВЛЕН",
            SystemStatus::Disconnected => "ОТКЛЮЧЕН",
        }
    }
}

/// The client of the core service.
pub struct CoreClient {
    pipe_path: String,
}

/// The pipe on which the core service takes commands.
pub open spec fn admin_pipe() -> Seq<char> {
    "\\\\.\\pipe\\CoreAdminPipe"@
}

impl CoreClient {
    /// The pipe that the client talks to.
    pub closed spec fn path(&self) -> Seq<char> {
        self.pipe_path@
    }

    /// A client of the core service on this machine.
    pub fn new() -> (r: CoreClient)
        ensures
            r.path() == admin_pipe(),
    {
        CoreClient { pipe_path: "\\\\.\\pipe\\CoreAdminPipe".to_owned() }
    }

    /// The pipe that the client talks to.
    pub fn pipe_path(&self) -> (r: &str)
        ensures
            r@ == self.path(),
    {
        self.pipe_path.as_str()
    }
}

/// The state that a reply to `STATUS` tells, or the text of the error.
pub open spec fn status_told(response: Seq<char>) -> Result<SystemStatus, Seq<char>> {
    let reply = text::trimmed(response);
    if text::has_prefix(reply, "STATE: "@) {
        if text::same_ignoring_case(reply.skip(7), "Suspended"@) {
            Ok(SystemStatus::Suspended)
        } else {
            Ok(SystemStatus::Active)
        }
    } else {
        Err("Неверный ответ статуса: "@ + reply)
    }
}

/// The state that a reply to `STATUS` tells, or the text of the error.
pub fn read_status(response: &str) -> (r: Result<SystemStatus, String>)
    ensures
        match r {
            Ok(status) => status_told(response@) == Ok::<SystemStatus, Seq<char>>(status),
            Err(e) => status_told(response@) == Err::<SystemStatus, Seq<char>>(e@),
        },
{
    proof {
        reveal_strlit("STATE: ");
    }
    let reply = trim(response);
    match strip_prefix(reply.as_str(), "STATE: ") {
        Some(state) => if eq_ignore_ascii_case(state.as_str(), "Suspended") {
            Ok(SystemStatus::Suspended)
        } else {
            Ok(SystemStatus::Active)
        },
        None => Err(join2("Неверный ответ статуса: ", reply.as_str())),
    }
}

/// Whether a command was carried out, or the text of the error for the user.
pub open spec fn command_told(response: Seq<char>) -> Result<(), Seq<char>> {
    let reply = text::trimmed(response);
    if reply == "OK"@ {
        Ok(())
    } else {
        Err(
            text::replaced(
                text::replaced(reply, "ERROR: "@, ""@),
                "Invalid password"@,
                "Неверный мастер-пароль"@,
            ),
        )
    }
}

/// Whether a command was carried out, or the text of the error for the user.
pub fn read_command(response: &str) -> (r: Result<(), String>)
    ensures
        match r {
            Ok(_) => command_told(response@) is Ok,
            Err(e) => command_told(response@) == Err::<(), Seq<char>>(e@),
        },
{
    proof {
        reveal_strlit("ERROR: ");
        reveal_strlit("Invalid password");
    }
    let reply = trim(response);
    if same(reply.as_str(), "OK") {
        return Ok(());
    }
    let bare = replace(reply.as_str(), "ERROR: ", "");
    Err(replace(bare.as_str(), "Invalid password", "Неверный мастер-пароль"))
}

// ---------------------------------------------------------------------------
// Laws
// ---------------------------------------------------------------------------

/// What the core service replies to `STATUS`, trimmed.
pub proof fn lemma_status_reply_trimmed(suspended: bool)
    ensures
        ({
            let state = if suspended {
                "Suspended"@
            } else {
                "Active"@
            };
            let reply = text::trimmed(admin::status_reply(suspended));
            &&& reply == "STATE: "@ + state
            &&& text::has_prefix(reply, "STATE: "@)
            &&& reply.skip(7) == state
        }),
{
    reveal_strlit("STATE: ");
    reveal_strlit("Suspended");
    reveal_strlit("Active");
    reveal_strlit("\n");
    let state = if suspended {
        "Suspended"@
    } else {
        "Active"@
    };
    let s = "STATE: "@ + state;
    text::lemma_trim_white_suffix(s, "\n"@);
    assert(s.last() == state.last());
    assert(s.subrange(0, 7) == "STATE: "@);
    assert(s.skip(7) == state);
}

/// The client reads from the core service's reply the state that the service
/// is in.
pub proof fn law_status_reply_is_read(suspended: bool)
    ensures
        status_told(admin::status_reply(suspended)) == Ok::<SystemStatus, Seq<char>>(
            if suspended {
                SystemStatus::Suspended
            } else {
                SystemStatus::Active
            },
        ),
{
    lemma_status_reply_trimmed(suspended);
    reveal_strlit("Suspended");
    reveal_strlit("Active");
}

/// The tray agent and the monitor call a state by the same Russian name.
pub proof fn law_same_names_for_states()
    ensures
        translate::status_ru("ACTIVE"@) == SystemStatus::Active.name_ru(),
        translate::status_ru("SUSPENDED"@) == SystemStatus::Suspended.name_ru(),
{
    translate::lemma_states_differ();
}

/// The client takes a command for carried out exactly if the core service
/// replies that it is.
pub proof fn law_command_reply_is_read(
    edition: Edition,
    request: admin::Request,
    suspended: bool,
    verified: bool,
    stored: Result<(), Seq<char>>,
)
    requires
        request is Suspend || request is Resume,
    ensures
        command_told(admin::outcome_of(edition, request, suspended, verified, stored).reply) is Ok
            <==> verified,
{
    reveal_strlit("OK");
    reveal_strlit("OK\n");
    reveal_strlit("\n");
    reveal_strlit("ERROR: Invalid password\n");
    reveal_strlit("ERROR: Invalid password");
    assert("OK\n"@ == "OK"@ + "\n"@);
    text::lemma_trim_white_suffix("OK"@, "\n"@);
    assert("ERROR: Invalid password\n"@ == "ERROR: Invalid password"@ + "\n"@);
    text::lemma_trim_white_suffix("ERROR: Invalid password"@, "\n"@);
    assert(!text::is_white("ERROR: Invalid password"@.last()));
    assert("ERROR: Invalid password"@.len() == 23);
}

/// The states go by Russian names of their own.
pub proof fn law_states_are_named(status: SystemStatus)
    ensures
        status == SystemStatus::Active <==> status.name_ru() == "АКТИВЕН"@,
        status == SystemStatus::Suspended <==> status.name_ru() == "ПРИОСТАНОВЛЕН"@,
        status == SystemStatus::Disconnected <==> status.name_ru() == "ОТКЛЮЧЕН"@,
{
    reveal_strlit("АКТИВЕН");
    reveal_strlit("ПРИОСТАНОВЛЕН");
    reveal_strlit("ОТКЛЮЧЕН");
    assert("АКТИВЕН"@.len() == 7 && "ПРИОСТАНОВЛЕН"@.len() == 13 && "ОТКЛЮЧЕН"@.len() == 8);
}

/// A reply tells a state exactly if it begins with the word for it, white space
/// aside: a suspension if that is what follows, in small letters or capitals,
/// and else that the protection is active. Any other reply is told as an error.
pub proof fn law_status_replies_are_sorted(response: Seq<char>, state: Seq<char>)
    ensures
        status_told(response) is Ok <==> "STATE: "@.is_prefix_of(text::trimmed(response)),
        text::trimmed(response) == "STATE: "@ + state ==> (status_told(response) == Ok::<
            SystemStatus,
            Seq<char>,
        >(SystemStatus::Suspended) <==> text::same_ignoring_case(state, "Suspended"@)),
        status_told(response) != Ok::<SystemStatus, Seq<char>>(SystemStatus::Disconnected),
        status_told(response) matches Err(e) ==> e == "Неверный ответ статуса: "@ + text::trimmed(
            response,
        ),
{
    reveal_strlit("STATE: ");
    let reply = text::trimmed(response);
    if reply == "STATE: "@ + state {
        assert(reply.subrange(0, 7) =~= "STATE: "@);
        assert(reply.skip(7) =~= state);
    }
}

/// A command was carried out exactly if the reply says so, white space aside; a
/// refusal for the password is told in Russian.
pub proof fn law_command_replies_are_sorted(response: Seq<char>)
    ensures
        command_told(response) is Ok <==> text::trimmed(response) == "OK"@,
        text::trimmed(response) == "ERROR: Invalid password"@ ==> command_told(response) == Err::<
            (),
            Seq<char>,
        >("Неверный мастер-пароль"@),
        command_told(response) matches Err(e) ==> e == text::replaced(
            text::replaced(text::trimmed(response), "ERROR: "@, Seq::empty()),
            "Invalid password"@,
            "Неверный мастер-пароль"@,
        ),
{
    let reply = text::trimmed(response);
    reveal_strlit("");
    assert(""@ =~= Seq::<char>::empty());
    if reply == "ERROR: Invalid password"@ {
        reveal_strlit("OK");
        reveal_strlit("ERROR: ");
        reveal_strlit("");
        reveal_strlit("Invalid password");
        reveal_strlit("ERROR: Invalid password");
        assert("OK"@.len() == 2 && reply.len() == 23);
        let p = "ERROR: "@;
        let w = "Invalid password"@;
        assert(reply =~= p + w);
        text::lemma_position_from(reply, p, 0);
        assert(reply.subrange(0, 7) =~= p);
        assert(text::occurs_at(reply, p, 0));
        assert(text::position(reply, p) == Some(0int));
        assert(reply.skip(7) =~= w);
        assert(!text::has_part(w, p)) by {
            if text::has_part(w, p) {
                let i = choose|i: int| text::occurs_at(w, p, i);
                assert(w.subrange(i, i + 7)[0] == 'E');
                assert(w[i] == 'E');
                lemma_no_capital_e(w, i);
            }
        }
        text::lemma_replaced_none(w, p, ""@);
        assert(reply.take(0) + ""@ + w =~= w);
        let q = "Неверный мастер-пароль"@;
        text::lemma_position_from(w, w, 0);
        assert(w.subrange(0, 16) =~= w);
        assert(text::occurs_at(w, w, 0));
        assert(text::position(w, w) == Some(0int));
        assert(w.skip(16) =~= Seq::<char>::empty());
        text::lemma_position_from(Seq::<char>::empty(), w, 0);
        assert(text::replaced(Seq::<char>::empty(), w, q) == Seq::<char>::empty());
        assert(w.take(0) + q + Seq::<char>::empty() =~= q);
    }
}

proof fn lemma_no_capital_e(w: Seq<char>, i: int)
    requires
        w == "Invalid password"@,
        0 <= i < w.len(),
    ensures
        w[i] != 'E',
{
    reveal_strlit("Invalid password");
    if i < 4 {
        assert(w[0] == 'I' && w[1] == 'n' && w[2] == 'v' && w[3] == 'a');
        assert(i == 0 || i == 1 || i == 2 || i == 3);
    } else if i < 8 {
        assert(w[4] == 'l' && w[5] == 'i' && w[6] == 'd' && w[7] == ' ');
        assert(i == 4 || i == 5 || i == 6 || i == 7);
    } else if i < 12 {
        assert(w[8] == 'p' && w[9] == 'a' && w[10] == 's' && w[11] == 's');
        assert(i == 8 || i == 9 || i == 10 || i == 11);
    } else {
        assert(w[12] == 'w' && w[13] == 'o' && w[14] == 'r' && w[15] == 'd');
        assert(i == 12 || i == 13 || i == 14 || i == 15);
    }
}

/// The client talks to the pipe on which the core service takes commands.
pub proof fn law_pipe_of_the_client()
    ensures
        admin_pipe() == "\\\\.\\pipe\\CoreAdminPipe"@,
{
}

} // verus!
