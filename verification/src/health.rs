//! The two pipes of the core service: the one on which it beats for the
//! watchdog, and the one on which it takes commands.

use vstd::prelude::*;

use crate::admin;
use crate::admin::AdminOutcome;
use crate::audit::AuditEntry;
use crate::audit::AuditEvent;
use crate::audit::Level;
use crate::db::Db;
use crate::network::Edition;
use crate::network::NetworkState;
use crate::parser;
use crate::text;
use crate::text::join2;
use crate::text::join3;

verus! {

// ---------------------------------------------------------------------------
// Heartbeats
// ---------------------------------------------------------------------------

/// What a heartbeat of the given time tells.
pub open spec fn heartbeat_text(
    edition: Edition,
    timestamp: Seq<char>,
    state: NetworkState,
) -> Seq<char> {
    match edition {
        Edition::Plain => "HEARTBEAT "@ + timestamp,
        Edition::Networked => "HEARTBEAT "@ + timestamp + " STATUS:"@ + state.name(),
    }
}

/// The line of a heartbeat.
pub open spec fn heartbeat_line(
    edition: Edition,
    timestamp: Seq<char>,
    state: NetworkState,
) -> Seq<char> {
    heartbeat_text(edition, timestamp, state) + "\n"@
}

/// The line of a heartbeat.
pub fn heartbeat_signal(edition: Edition, timestamp: &str, state: NetworkState) -> (r: String)
    ensures
        r@ == heartbeat_line(edition, timestamp@, state),
{
    let beat = join2("HEARTBEAT ", timestamp);
    match edition {
        Edition::Plain => join2(beat.as_str(), "\n"),
        Edition::Networked => {
            let told = join3(beat.as_str(), " STATUS:", state.as_text());
            join2(told.as_str(), "\n")
        },
    }
}

/// What is logged with each heartbeat.
pub open spec fn beat_entry(suspended: bool, timestamp: Seq<char>) -> AuditEntry {
    if suspended {
        AuditEntry {
            level: Level::Info,
            category: "system_status"@,
            message: "System is suspended. Blocking logic inactive."@,
        }
    } else {
        AuditEntry {
            level: Level::Info,
            category: "heartbeat"@,
            message: "Heartbeat sent: "@ + timestamp,
        }
    }
}

/// What is logged with each heartbeat.
pub fn beat_event(suspended: bool, timestamp: &str) -> (r: AuditEvent)
    ensures
        r@ == beat_entry(suspended, timestamp@),
{
    if suspended {
        AuditEvent::new(
            Level::Info,
            "system_status",
            "System is suspended. Blocking logic inactive.",
        )
    } else {
        AuditEvent::new(Level::Info, "heartbeat", join2("Heartbeat sent: ", timestamp).as_str())
    }
}

/// The watchdog takes every heartbeat for one, and reads it without white
/// space at its end; one that tells a state has none there.
pub proof fn law_heartbeat_is_heard(edition: Edition, timestamp: Seq<char>, state: NetworkState)
    ensures
        parser::heard(heartbeat_line(edition, timestamp, state)) == parser::Heard::Beat(
            text::trim_end(heartbeat_text(edition, timestamp, state)),
        ),
        edition == Edition::Networked ==> text::trim_end(heartbeat_text(edition, timestamp, state))
            == heartbeat_text(edition, timestamp, state),
{
    reveal_strlit("HEARTBEAT ");
    reveal_strlit("HEARTBEAT");
    reveal_strlit(" STATUS:");
    reveal_strlit("GREEN");
    reveal_strlit("YELLOW");
    reveal_strlit("RED");
    reveal_strlit("\n");
    let s = heartbeat_text(edition, timestamp, state);
    text::lemma_trim_white_suffix(s, "\n"@);
    text::lemma_trim_end_solid(s);
    let t = text::trim_end(s);
    assert(s[8] == 'T');
    assert(t.len() >= 9) by {
        if t.len() < 9 {
            assert(text::is_white(s[8]));
        }
    }
    assert(t.subrange(0, 9) =~= "HEARTBEAT"@);
    if edition == Edition::Networked {
        assert(s.last() == state.name().last());
    }
}

// ---------------------------------------------------------------------------
// Pipe servers
// ---------------------------------------------------------------------------

/// What a pipe server does next.
#[derive(Debug, Clone, Copy, PartialEq, Eq, Structural)]
pub enum PipePhase {
    /// Create the pipe.
    Create,
    /// Wait for a client.
    Connect,
    /// Serve the client.
    Serve,
}

/// What a pipe server does about an event.
#[derive(Debug)]
pub struct PipeStep {
    /// The entries to log, in their order.
    pub events: Vec<AuditEvent>,
    /// How long to wait, in milliseconds.
    pub pause_ms: u64,
    /// What to do then.
    pub next: PipePhase,
}

/// What a pipe server does about an event, by its texts.
pub struct Step {
    pub events: Seq<AuditEntry>,
    pub pause_ms: u64,
    pub next: PipePhase,
}

impl View for PipeStep {
    type V = Step;

    open spec fn view(&self) -> Step {
        Step {
            events: self.events@.map_values(|e: AuditEvent| e@),
            pause_ms: self.pause_ms,
            next: self.next,
        }
    }
}

/// What happens to the server of the health pipe.
#[derive(Debug)]
pub enum HealthEvent {
    /// The pipe could not be created; `attributes` tells that already its
    /// security attributes could not.
    CreateFailed { attributes: bool, reason: String },
    Created,
    ConnectFailed(String),
    Connected,
    /// The heartbeat could not be written.
    BeatFailed,
    /// The heartbeat of this time was written.
    Beaten { suspended: bool, timestamp: String },
}

/// What the server of the health pipe does about an event.
pub open spec fn health_step(edition: Edition, event: HealthEvent) -> Step {
    match event {
        HealthEvent::CreateFailed { attributes, reason } => {
            let create = AuditEntry {
                level: Level::Error,
                category: "ipc_error"@,
                message: "Error creating secure named pipe: "@ + reason@,
            };
            let secure = AuditEntry {
                level: Level::Error,
                category: "security_error"@,
                message: "Error generating security attributes: "@ + reason@,
            };
            Step {
                events: if attributes {
                    seq![secure, create]
                } else {
                    seq![create]
                },
                pause_ms: 1000,
                next: PipePhase::Create,
            }
        },
        HealthEvent::Created => Step { events: seq![], pause_ms: 0, next: PipePhase::Connect },
        HealthEvent::ConnectFailed(reason) => Step {
            events: seq![
                AuditEntry {
                    level: Level::Error,
                    category: "ipc_error"@,
                    message: match edition {
                        Edition::Networked => "Watchdog connection failed"@,
                        Edition::Plain => "Watchdog connection failed: "@ + reason@,
                    },
                },
            ],
            pause_ms: 1000,
            next: PipePhase::Create,
        },
        HealthEvent::Connected => Step {
            events: seq![
                AuditEntry {
                    level: Level::Info,
                    category: "ipc_event"@,
                    message: "Watchdog connected via Secure Named Pipe."@,
                },
            ],
            pause_ms: 0,
            next: PipePhase::Serve,
        },
        HealthEvent::BeatFailed => Step {
            events: seq![
                AuditEntry {
                    level: Level::Warn,
                    category: "ipc_event"@,
                    message: "Failed to write heartbeat to pipe (Watchdog disconnected)"@,
                },
            ],
            pause_ms: 0,
            next: PipePhase::Create,
        },
        HealthEvent::Beaten { suspended, timestamp } => Step {
            events: seq![beat_entry(suspended, timestamp@)],
            pause_ms: 500,
            next: PipePhase::Serve,
        },
    }
}

fn step_of(event: AuditEvent, pause_ms: u64, next: PipePhase) -> (r: PipeStep)
    ensures
        r@ == (Step { events: seq![event@], pause_ms, next }),
{
    let mut events: Vec<AuditEvent> = Vec::new();
    events.push(event);
    let r = PipeStep { events, pause_ms, next };
    assert(r@.events == seq![event@]);
    r
}

fn silent_step(pause_ms: u64, next: PipePhase) -> (r: PipeStep)
    ensures
        r@ == (Step { events: seq![], pause_ms, next }),
{
    let r = PipeStep { events: Vec::new(), pause_ms, next };
    assert(r@.events == Seq::<AuditEntry>::empty());
    r
}

fn two_step(first: AuditEvent, second: AuditEvent, pause_ms: u64, next: PipePhase) -> (r: PipeStep)
    ensures
        r@ == (Step { events: seq![first@, second@], pause_ms, next }),
{
    let mut events: Vec<AuditEvent> = Vec::new();
    events.push(first);
    events.push(second);
    let r = PipeStep { events, pause_ms, next };
    assert(r@.events == seq![first@, second@]);
    r
}

/// What the server of the health pipe does about an event.
pub fn on_health_event(edition: Edition, event: &HealthEvent) -> (r: PipeStep)
    ensures
        r@ == health_step(edition, *event),
{
    match event {
        HealthEvent::CreateFailed { attributes, reason } => {
            let create = AuditEvent::new(
                Level::Error,
                "ipc_error",
                join2("Error creating secure named pipe: ", reason.as_str()).as_str(),
            );
            if *attributes {
                let secure = AuditEvent::new(
                    Level::Error,
                    "security_error",
                    join2("Error generating security attributes: ", reason.as_str()).as_str(),
                );
                two_step(secure, create, 1000, PipePhase::Create)
            } else {
                step_of(create, 1000, PipePhase::Create)
            }
        },
        HealthEvent::Created => silent_step(0, PipePhase::Connect),
        HealthEvent::ConnectFailed(reason) => {
            let message = match edition {
                Edition::Networked => "Watchdog connection failed".to_owned(),
                Edition::Plain => join2("Watchdog connection failed: ", reason.as_str()),
            };
            step_of(
                AuditEvent::new(Level::Error, "ipc_error", message.as_str()),
                1000,
                PipePhase::Create,
            )
        },
        HealthEvent::Connected => step_of(
            AuditEvent::new(
                Level::Info,
                "ipc_event",
                "Watchdog connected via Secure Named Pipe.",
            ),
            0,
            PipePhase::Serve,
        ),
        HealthEvent::BeatFailed => step_of(
            AuditEvent::new(
                Level::Warn,
                "ipc_event",
                "Failed to write heartbeat to pipe (Watchdog disconnected)",
            ),
            0,
            PipePhase::Create,
        ),
        HealthEvent::Beaten { suspended, timestamp } => step_of(
            beat_event(*suspended, timestamp.as_str()),
            500,
            PipePhase::Serve,
        ),
    }
}

/// What happens to the server of the admin pipe.
#[derive(Debug)]
pub enum AdminEvent {
    /// The pipe could not be created; `attributes` tells that already its
    /// security attributes could not.
    CreateFailed { attributes: bool, reason: String },
    Created,
    ConnectFailed,
    Connected,
    /// The client sent nothing.
    Silent,
    /// The client's line could not be read.
    ReadFailed(String),
    /// The client's line was served.
    Served,
}

/// What the server of the admin pipe does about an event.
pub open spec fn admin_step(event: AdminEvent) -> Step {
    match event {
        AdminEvent::CreateFailed { attributes, reason } => {
            let create = AuditEntry {
                level: Level::Warn,
                category: "ipc_error"@,
                message: "Failed to create Admin Named Pipe: "@ + reason@
                    + ". Retrying in 2 seconds..."@,
            };
            let secure = AuditEntry {
                level: Level::Error,
                category: "security_error"@,
                message: "Failed to generate security attributes for Admin Pipe: "@ + reason@,
            };
            Step {
                events: if attributes {
                    seq![secure, create]
                } else {
                    seq![create]
                },
                pause_ms: 2000,
                next: PipePhase::Create,
            }
        },
        AdminEvent::Created => Step { events: seq![], pause_ms: 0, next: PipePhase::Connect },
        AdminEvent::ConnectFailed => Step {
            events: seq![],
            pause_ms: 1000,
            next: PipePhase::Create,
        },
        AdminEvent::Connected => Step { events: seq![], pause_ms: 0, next: PipePhase::Serve },
        AdminEvent::Silent => Step { events: seq![], pause_ms: 500, next: PipePhase::Create },
        AdminEvent::ReadFailed(reason) => Step {
            events: seq![
                AuditEntry {
                    level: Level::Error,
                    category: "ipc_error"@,
                    message: "Error reading from Admin Named Pipe: "@ + reason@,
                },
            ],
            pause_ms: 500,
            next: PipePhase::Create,
        },
        AdminEvent::Served => Step { events: seq![], pause_ms: 500, next: PipePhase::Create },
    }
}

/// What the server of the admin pipe does about an event.
pub fn on_admin_event(event: &AdminEvent) -> (r: PipeStep)
    ensures
        r@ == admin_step(*event),
{
    match event {
        AdminEvent::CreateFailed { attributes, reason } => {
            let create = AuditEvent::new(
                Level::Warn,
                "ipc_error",
                join3(
                    "Failed to create Admin Named Pipe: ",
                    reason.as_str(),
                    ". Retrying in 2 seconds...",
                ).as_str(),
            );
            if *attributes {
                let secure = AuditEvent::new(
                    Level::Error,
                    "security_error",
                    join2(
                        "Failed to generate security attributes for Admin Pipe: ",
                        reason.as_str(),
                    ).as_str(),
                );
                two_step(secure, create, 2000, PipePhase::Create)
            } else {
                step_of(create, 2000, PipePhase::Create)
            }
        },
        AdminEvent::Created => silent_step(0, PipePhase::Connect),
        AdminEvent::ConnectFailed => silent_step(1000, PipePhase::Create),
        AdminEvent::Connected => silent_step(0, PipePhase::Serve),
        AdminEvent::Silent => silent_step(500, PipePhase::Create),
        AdminEvent::ReadFailed(reason) => step_of(
            AuditEvent::new(
                Level::Error,
                "ipc_error",
                join2("Error reading from Admin Named Pipe: ", reason.as_str()).as_str(),
            ),
            500,
            PipePhase::Create,
        ),
        AdminEvent::Served => silent_step(500, PipePhase::Create),
    }
}

/// What the core service makes of a client's line: what it comes to, where
/// the client sent one.
pub fn on_admin_line(
    edition: Edition,
    database: &mut Db,
    suspended: bool,
    bytes_read: usize,
    line: &str,
) -> (r: Option<AdminOutcome>)
    ensures
        bytes_read == 0 ==> r is None && *final(database) == *old(database),
        bytes_read > 0 ==> (r matches Some(outcome) && admin::served(
            edition,
            *old(database),
            *final(database),
            suspended,
            line@,
            outcome@,
        )),
{
    if bytes_read == 0 {
        None
    } else {
        Some(admin::serve_line(edition, database, suspended, line))
    }
}

/// No server goes on creating its pipe without a pause after it failed to.
pub proof fn law_failed_pipes_are_not_retried_at_once(
    edition: Edition,
    attributes: bool,
    reason: String,
)
    ensures
        health_step(edition, HealthEvent::CreateFailed { attributes, reason }).pause_ms >= 1000,
        health_step(edition, HealthEvent::ConnectFailed(reason)).pause_ms >= 1000,
        admin_step(AdminEvent::CreateFailed { attributes, reason }).pause_ms >= 1000,
        admin_step(AdminEvent::ConnectFailed).pause_ms >= 1000,
{
}

/// A heartbeat tells its time and, in the networked edition, the name of the
/// state behind it.
pub proof fn law_heartbeat_tells_the_state(timestamp: Seq<char>, state: NetworkState)
    ensures
        heartbeat_line(Edition::Plain, timestamp, state) == "HEARTBEAT "@ + timestamp + "\n"@,
        heartbeat_line(Edition::Networked, timestamp, state) == "HEARTBEAT "@ + timestamp
            + " STATUS:"@ + (match state {
            NetworkState::Green => "GREEN\n"@,
            NetworkState::Yellow => "YELLOW\n"@,
            NetworkState::Red => "RED\n"@,
        }),
{
    reveal_strlit("\n");
    reveal_strlit("GREEN");
    reveal_strlit("YELLOW");
    reveal_strlit("RED");
    reveal_strlit("GREEN\n");
    reveal_strlit("YELLOW\n");
    reveal_strlit("RED\n");
    assert("GREEN\n"@ =~= "GREEN"@ + "\n"@);
    assert("YELLOW\n"@ =~= "YELLOW"@ + "\n"@);
    assert("RED\n"@ =~= "RED"@ + "\n"@);
    assert(heartbeat_line(Edition::Networked, timestamp, state) =~= "HEARTBEAT "@ + timestamp
        + " STATUS:"@ + (match state {
        NetworkState::Green => "GREEN\n"@,
        NetworkState::Yellow => "YELLOW\n"@,
        NetworkState::Red => "RED\n"@,
    }));
}

/// Heartbeats of one time in different states are different lines, and so are
/// heartbeats of different times in one state.
pub proof fn law_heartbeats_differ(
    t: Seq<char>,
    u: Seq<char>,
    a: NetworkState,
    b: NetworkState,
)
    ensures
        heartbeat_line(Edition::Networked, t, a) == heartbeat_line(Edition::Networked, t, b)
            <==> a == b,
        heartbeat_line(Edition::Networked, t, a) == heartbeat_line(Edition::Networked, u, a)
            <==> t == u,
        heartbeat_line(Edition::Plain, t, a) == heartbeat_line(Edition::Plain, u, b) <==> t == u,
{
    law_heartbeat_tells_the_state(t, a);
    law_heartbeat_tells_the_state(t, b);
    law_heartbeat_tells_the_state(u, a);
    reveal_strlit("HEARTBEAT ");
    reveal_strlit(" STATUS:");
    reveal_strlit("\n");
    reveal_strlit("GREEN\n");
    reveal_strlit("YELLOW\n");
    reveal_strlit("RED\n");
    lemma_middle("HEARTBEAT "@, t, u, "\n"@);
    let x = heartbeat_line(Edition::Networked, t, a);
    let end = " STATUS:"@ + (match a {
        NetworkState::Green => "GREEN\n"@,
        NetworkState::Yellow => "YELLOW\n"@,
        NetworkState::Red => "RED\n"@,
    });
    assert(x =~= "HEARTBEAT "@ + t + end);
    assert(heartbeat_line(Edition::Networked, u, a) =~= "HEARTBEAT "@ + u + end);
    lemma_middle("HEARTBEAT "@, t, u, end);
    assert(a == NetworkState::Green ==> x.len() == t.len() + 24);
    assert(a == NetworkState::Yellow ==> x.len() == t.len() + 25);
    assert(a == NetworkState::Red ==> x.len() == t.len() + 22);
}

/// Between the same ends, texts are the same exactly if they are.
proof fn lemma_middle(head: Seq<char>, t: Seq<char>, u: Seq<char>, end: Seq<char>)
    ensures
        head + t + end == head + u + end <==> t == u,
{
    let x = head + t + end;
    let y = head + u + end;
    if x == y {
        let n = head.len() as int;
        assert(x.len() == y.len());
        assert(x.subrange(n, n + t.len()) =~= t);
        assert(y.subrange(n, n + u.len()) =~= u);
    }
}

/// With a heartbeat the time of it is logged or, while blocking is suspended,
/// that it is.
pub proof fn law_beat_is_logged(suspended: bool, timestamp: Seq<char>)
    ensures
        beat_entry(suspended, timestamp).level == Level::Info,
        suspended <==> beat_entry(suspended, timestamp).category == "system_status"@,
        !suspended <==> beat_entry(suspended, timestamp).category == "heartbeat"@,
        beat_entry(suspended, timestamp).message == (if suspended {
            "System is suspended. Blocking logic inactive."@
        } else {
            "Heartbeat sent: "@ + timestamp
        }),
{
    reveal_strlit("system_status");
    reveal_strlit("heartbeat");
    assert("system_status"@.len() == 13 && "heartbeat"@.len() == 9);
}

/// How the server of the health pipe goes on: it serves exactly while it is
/// connected and its heartbeats can be written, half a second after each; what
/// fails is logged with its reason and tried anew, after a second where the
/// pipe could not be had.
pub proof fn law_course_of_the_health_pipe(edition: Edition, event: HealthEvent)
    ensures
        ({
            let step = health_step(edition, event);
            &&& step.next == PipePhase::Serve <==> event is Connected || event is Beaten
            &&& step.next == PipePhase::Connect <==> event is Created
            &&& step.pause_ms == (if event is CreateFailed || event is ConnectFailed {
                1000u64
            } else if event is Beaten {
                500
            } else {
                0
            })
            &&& event is Created <==> step.events.len() == 0
            &&& step.events.len() == 2 <==> (event matches HealthEvent::CreateFailed {
                attributes,
                ..
            } && attributes)
            &&& step.events.len() <= 2
        }),
{
}

/// What the server of the health pipe logs.
pub proof fn law_log_of_the_health_pipe(edition: Edition, event: HealthEvent)
    ensures
        ({
            let events = health_step(edition, event).events;
            match event {
                HealthEvent::CreateFailed { attributes, reason } => {
                    &&& events.last().level == Level::Error
                    &&& events.last().category == "ipc_error"@
                    &&& events.last().message == "Error creating secure named pipe: "@ + reason@
                    &&& attributes ==> events[0].level == Level::Error && events[0].category
                        == "security_error"@ && events[0].message
                        == "Error generating security attributes: "@ + reason@
                },
                HealthEvent::Created => true,
                HealthEvent::ConnectFailed(reason) => {
                    &&& events[0].level == Level::Error
                    &&& events[0].category == "ipc_error"@
                    &&& events[0].message == "Watchdog connection failed"@ + (if edition
                        == Edition::Plain {
                        ": "@ + reason@
                    } else {
                        Seq::empty()
                    })
                },
                HealthEvent::Connected => {
                    &&& events[0].level == Level::Info
                    &&& events[0].category == "ipc_event"@
                    &&& events[0].message == "Watchdog connected via Secure Named Pipe."@
                },
                HealthEvent::BeatFailed => {
                    &&& events[0].level == Level::Warn
                    &&& events[0].category == "ipc_event"@
                    &&& events[0].message
                        == "Failed to write heartbeat to pipe (Watchdog disconnected)"@
                },
                HealthEvent::Beaten { suspended, timestamp } => {
                    &&& events[0].level == Level::Info
                    &&& suspended ==> events[0].category == "system_status"@ && events[0].message
                        == "System is suspended. Blocking logic inactive."@
                    &&& !suspended ==> events[0].category == "heartbeat"@ && events[0].message
                        == "Heartbeat sent: "@ + timestamp@
                },
            }
        }),
{
    reveal_strlit("Watchdog connection failed");
    reveal_strlit("Watchdog connection failed: ");
    reveal_strlit(": ");
    assert("Watchdog connection failed: "@ =~= "Watchdog connection failed"@ + ": "@);
    assert("Watchdog connection failed"@ + Seq::<char>::empty()
        =~= "Watchdog connection failed"@);
    if let HealthEvent::ConnectFailed(reason) = event {
        assert("Watchdog connection failed: "@ + reason@ =~= "Watchdog connection failed"@ + (
        ": "@ + reason@));
    }
}

/// How the server of the admin pipe goes on: it serves exactly once a client is
/// connected, one line each time; between two clients half a second passes, a
/// second where none could be connected, and two where the pipe could not be
/// had.
pub proof fn law_course_of_the_admin_pipe(event: AdminEvent)
    ensures
        ({
            let step = admin_step(event);
            &&& step.next == PipePhase::Serve <==> event is Connected
            &&& step.next == PipePhase::Connect <==> event is Created
            &&& step.pause_ms == (if event is CreateFailed {
                2000u64
            } else if event is ConnectFailed {
                1000
            } else if event is Created || event is Connected {
                0
            } else {
                500
            })
            &&& step.events.len() == (match event {
                AdminEvent::CreateFailed { attributes, .. } => if attributes {
                    2int
                } else {
                    1
                },
                AdminEvent::ReadFailed(_) => 1,
                _ => 0,
            })
        }),
        event matches AdminEvent::CreateFailed { attributes, reason } ==> {
            let events = admin_step(event).events;
            &&& events.last().level == Level::Warn
            &&& events.last().category == "ipc_error"@
            &&& events.last().message == "Failed to create Admin Named Pipe: "@ + reason@
                + ". Retrying in 2 seconds..."@
            &&& attributes ==> events[0].level == Level::Error && events[0].category
                == "security_error"@ && events[0].message
                == "Failed to generate security attributes for Admin Pipe: "@ + reason@
        },
        event matches AdminEvent::ReadFailed(reason) ==> {
            let e = admin_step(event).events[0];
            &&& e.level == Level::Error
            &&& e.category == "ipc_error"@
            &&& e.message == "Error reading from Admin Named Pipe: "@ + reason@
        },
{
}

/// What is known of a step by its texts is what stands in it, and no entry is
/// lost.
pub proof fn law_steps_are_seen_whole(step: PipeStep)
    ensures
        step@.pause_ms == step.pause_ms,
        step@.next == step.next,
        step@.events.len() == step.events@.len(),
        forall|i: int|
            0 <= i < step.events@.len() ==> #[trigger] step@.events[i].message
                == step.events@[i].message@ && step@.events[i].category == step.events@[i].category@
                && step@.events[i].level == step.events@[i].level,
{
}

} // verus!
