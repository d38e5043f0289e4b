//! The watchdog: it listens for the heartbeats of the core service and
//! restarts the service when they stop.

use vstd::prelude::*;

use crate::audit::AuditEntry;
use crate::audit::AuditEvent;
use crate::audit::Level;
use crate::health;
use crate::health::HealthEvent;
use crate::health::PipePhase;
use crate::network::Edition;
use crate::network::NetworkState;
use crate::numbers;
use crate::numbers::decimal_text;
use crate::text;
use crate::text::join2;
use crate::text::join3;
use crate::text::starts_with;
use crate::text::trim;
use crate::translate;

verus! {

// ---------------------------------------------------------------------------
// Log lines
// ---------------------------------------------------------------------------

/// A line of the watchdog's own log.
pub open spec fn log_line(time: Seq<char>, message: Seq<char>) -> Seq<char> {
    "["@ + time + "] "@ + message + "\n"@
}

/// A line of the watchdog's own log.
pub fn format_log_line(time: &str, message: &str) -> (r: String)
    ensures
        r@ == log_line(time@, message@),
{
    join3(join3("[", time, "] ").as_str(), message, "\n")
}

/// A line of the event log. The texts are written as they are, so they must
/// not hold what JSON would want escaped.
pub open spec fn event_line(
    time: Seq<char>,
    level: Seq<char>,
    category: Seq<char>,
    message: Seq<char>,
) -> Seq<char> {
    "{\"timestamp\":\""@ + time + "\",\"level\":\""@ + level + "\",\"fields\":{\"category\":\""@
        + category + "\",\"message\":\""@ + message + "\"}}\n"@
}

/// A line of the event log.
pub fn format_event_line(time: &str, level: &str, category: &str, message: &str) -> (r: String)
    ensures
        r@ == event_line(time@, level@, category@, message@),
{
    let timed = join3("{\"timestamp\":\"", time, "\",\"level\":\"");
    let levelled = join3(timed.as_str(), level, "\",\"fields\":{\"category\":\"");
    let sorted = join3(levelled.as_str(), category, "\",\"message\":\"");
    join3(sorted.as_str(), message, "\"}}\n")
}

// ---------------------------------------------------------------------------
// Listening
// ---------------------------------------------------------------------------

/// What happens on the watchdog's side of the health pipe.
#[derive(Debug)]
pub enum WatchEvent {
    /// The pipe could not be opened.
    ConnectFailed(String),
    Connected,
    /// The other side closed the pipe.
    Closed,
    /// A line came.
    Line(String),
    /// The pipe could not be read.
    ReadFailed(String),
    /// No line came in time.
    TimedOut,
}

/// How long the watchdog waits for a line, in milliseconds.
pub const LISTEN_TIMEOUT_MS: u64 = 2000;

/// What the watchdog does next.
#[derive(Debug, Clone, Copy, PartialEq, Eq, Structural)]
pub enum WatchPhase {
    /// Open the pipe.
    Connect,
    /// Wait for a line.
    Listen,
}

/// What the watchdog does about an event.
#[derive(Debug)]
pub struct WatchStep {
    /// The message to log.
    pub message: String,
    /// Whether the core service is to be restarted.
    pub restart: bool,
    /// How long to wait, in milliseconds.
    pub pause_ms: u64,
    /// What to do then.
    pub next: WatchPhase,
}

/// What the watchdog does about an event, by its texts.
pub struct Watch {
    pub message: Seq<char>,
    pub restart: bool,
    pub pause_ms: u64,
    pub next: WatchPhase,
}

impl View for WatchStep {
    type V = Watch;

    open spec fn view(&self) -> Watch {
        Watch {
            message: self.message@,
            restart: self.restart,
            pause_ms: self.pause_ms,
            next: self.next,
        }
    }
}

/// The core service is taken for dead.
pub open spec fn lost(message: Seq<char>) -> Watch {
    Watch { message, restart: true, pause_ms: 2000, next: WatchPhase::Connect }
}

/// The core service is taken for alive.
pub open spec fn listening(message: Seq<char>) -> Watch {
    Watch { message, restart: false, pause_ms: 0, next: WatchPhase::Listen }
}

/// What the watchdog does about a line.
pub open spec fn line_step(line: Seq<char>) -> Watch {
    let message = text::trimmed(line);
    if text::has_prefix(message, "HEARTBEAT"@) {
        listening("Watchdog verified: "@ + message)
    } else {
        listening("Received unexpected message from pipe: "@ + message)
    }
}

/// What the watchdog does about an event.
pub open spec fn watch_step(event: WatchEvent) -> Watch {
    match event {
        WatchEvent::ConnectFailed(reason) => lost(
            "Failed to connect to named pipe: "@ + reason@
                + ". CoreService may be stopped or crashed."@,
        ),
        WatchEvent::Connected => listening("Successfully connected to CoreService named pipe."@),
        WatchEvent::Closed => lost(
            "Connection to CoreService named pipe closed (EOF). Service may have terminated."@,
        ),
        WatchEvent::Line(line) => line_step(line@),
        WatchEvent::ReadFailed(reason) => lost(
            "Error reading from named pipe: "@ + reason@ + ". Connection broken."@,
        ),
        WatchEvent::TimedOut => lost(
            "TIMEOUT: No heartbeat received from CoreService for 2 seconds. Service is unresponsive."@,
        ),
    }
}

fn lose(message: &str) -> (r: WatchStep)
    ensures
        r@ == lost(message@),
{
    WatchStep {
        message: message.to_owned(),
        restart: true,
        pause_ms: 2000,
        next: WatchPhase::Connect,
    }
}

fn listen(message: &str) -> (r: WatchStep)
    ensures
        r@ == listening(message@),
{
    WatchStep {
        message: message.to_owned(),
        restart: false,
        pause_ms: 0,
        next: WatchPhase::Listen,
    }
}

/// What the watchdog does about an event.
pub fn on_watch_event(event: &WatchEvent) -> (r: WatchStep)
    ensures
        r@ == watch_step(*event),
{
    match event {
        WatchEvent::ConnectFailed(reason) => lose(
            join3(
                "Failed to connect to named pipe: ",
                reason.as_str(),
                ". CoreService may be stopped or crashed.",
            ).as_str(),
        ),
        WatchEvent::Connected => listen("Successfully connected to CoreService named pipe."),
        WatchEvent::Closed => lose(
            "Connection to CoreService named pipe closed (EOF). Service may have terminated.",
        ),
        WatchEvent::Line(line) => {
            let message = trim(line.as_str());
            if starts_with(message.as_str(), "HEARTBEAT") {
                listen(join2("Watchdog verified: ", message.as_str()).as_str())
            } else {
                listen(
                    join2("Received unexpected message from pipe: ", message.as_str()).as_str(),
                )
            }
        },
        WatchEvent::ReadFailed(reason) => lose(
            join3(
                "Error reading from named pipe: ",
                reason.as_str(),
                ". Connection broken.",
            ).as_str(),
        ),
        WatchEvent::TimedOut => lose(
            "TIMEOUT: No heartbeat received from CoreService for 2 seconds. Service is unresponsive.",
        ),
    }
}

// ---------------------------------------------------------------------------
// The watchdog's own course
// ---------------------------------------------------------------------------

/// A turn in the course of the watchdog.
#[derive(Debug)]
pub enum WatchdogTurn {
    Started,
    ShutDown,
    /// The service control manager does not know the watchdog.
    Unregistered,
    /// The watchdog could not hand itself to the service control manager.
    NotDispatched(u32),
    Failed(String),
}

/// The message to log at a turn.
pub open spec fn turn_text(turn: WatchdogTurn) -> Seq<char> {
    match turn {
        WatchdogTurn::Started => "Watchdog service started successfully."@,
        WatchdogTurn::ShutDown => "Watchdog service shutdown signal received."@,
        WatchdogTurn::Unregistered => "Failed to register service control handler."@,
        WatchdogTurn::NotDispatched(code) => "Failed to start service control dispatcher: "@
            + numbers::decimal(code as nat) + "."@,
        WatchdogTurn::Failed(reason) => "Watchdog Service error: "@ + reason@,
    }
}

/// The message to log at a turn.
pub fn turn_message(turn: &WatchdogTurn) -> (r: String)
    ensures
        r@ == turn_text(*turn),
{
    match turn {
        WatchdogTurn::Started => "Watchdog service started successfully.".to_owned(),
        WatchdogTurn::ShutDown => "Watchdog service shutdown signal received.".to_owned(),
        WatchdogTurn::Unregistered => "Failed to register service control handler.".to_owned(),
        WatchdogTurn::NotDispatched(code) => join3(
            "Failed to start service control dispatcher: ",
            decimal_text(*code as u64).as_str(),
            ".",
        ),
        WatchdogTurn::Failed(reason) => join2("Watchdog Service error: ", reason.as_str()),
    }
}

// ---------------------------------------------------------------------------
// Restarting
// ---------------------------------------------------------------------------

/// When the core service was last restarted, in seconds since 1970.
pub struct RestartGate {
    last: u64,
}

/// The seconds from `last` to `now`, as a clock of 64 bits counts them: a clock
/// that went back has gone nearly all the way round.
pub open spec fn seconds_between(last: u64, now: u64) -> int {
    if now >= last {
        now - last
    } else {
        now - last + 0x1_0000_0000_0000_0000
    }
}

/// A restart at `now` is due if the last one is eight seconds past.
pub open spec fn restart_due(last: u64, now: u64) -> bool {
    seconds_between(last, now) >= 8
}

impl RestartGate {
    /// The time of the last restart.
    pub closed spec fn last_restart(&self) -> u64 {
        self.last
    }

    /// Before the first restart.
    pub fn new() -> (r: RestartGate)
        ensures
            r.last_restart() == 0,
    {
        RestartGate { last: 0 }
    }

    /// The time of the last restart.
    pub fn last(&self) -> (r: u64)
        ensures
            r == self.last_restart(),
    {
        self.last
    }

    /// Whether a restart is due at `now`; one that is due is noted.
    pub fn permit(&mut self, now: u64) -> (r: bool)
        ensures
            r == restart_due(old(self).last_restart(), now),
            final(self).last_restart() == (if r {
                now
            } else {
                old(self).last_restart()
            }),
    {
        if now.wrapping_sub(self.last) < 8 {
            return false;
        }
        self.last = now;
        true
    }
}

/// What is logged, to both logs, when a restart begins.
pub open spec fn restart_entry() -> AuditEntry {
    AuditEntry {
        level: Level::Warn,
        category: "watchdog_event"@,
        message: "Watchdog triggered: CoreService stopped responding. Attempting restart..."@,
    }
}

/// What is logged, to both logs, when a restart begins.
pub fn restart_event() -> (r: AuditEvent)
    ensures
        r@ == restart_entry(),
{
    AuditEvent::new(
        Level::Warn,
        "watchdog_event",
        "Watchdog triggered: CoreService stopped responding. Attempting restart...",
    )
}

/// A step of a restart.
#[derive(Debug, Clone, Copy, PartialEq, Eq, Structural)]
pub enum RestartCall {
    /// Log that the restart begins.
    Announce,
    /// End what is left of the core service.
    KillCore,
    /// Start the core service by the service control manager.
    StartService,
    /// Start the executable beside the watchdog.
    SpawnExecutable,
}

/// The step of a restart that follows another one, by whether that was done.
pub open spec fn restart_step(call: RestartCall, done: bool) -> Option<RestartCall> {
    match call {
        RestartCall::Announce => Some(RestartCall::KillCore),
        RestartCall::KillCore => Some(RestartCall::StartService),
        RestartCall::StartService => if done {
            None
        } else {
            Some(RestartCall::SpawnExecutable)
        },
        RestartCall::SpawnExecutable => None,
    }
}

/// The step of a restart that follows another one, by whether that was done.
pub fn next_restart_call(call: RestartCall, done: bool) -> (r: Option<RestartCall>)
    ensures
        r == restart_step(call, done),
{
    match call {
        RestartCall::Announce => Some(RestartCall::KillCore),
        RestartCall::KillCore => Some(RestartCall::StartService),
        RestartCall::StartService => if done {
            None
        } else {
            Some(RestartCall::SpawnExecutable)
        },
        RestartCall::SpawnExecutable => None,
    }
}

/// How starting the executable beside the watchdog ended.
#[derive(Debug)]
pub enum SpawnResult {
    /// The watchdog does not know where it is.
    NoPath,
    /// There is no such executable.
    Missing,
    Spawned,
    Failed(String),
}

/// The message to log about starting the executable.
pub open spec fn spawn_message(result: SpawnResult) -> Option<Seq<char>> {
    match result {
        SpawnResult::NoPath => None,
        SpawnResult::Missing => Some("core-service.exe not found in watchdog directory."@),
        SpawnResult::Spawned => Some("CoreService spawned directly from executable."@),
        SpawnResult::Failed(reason) => Some("Failed to spawn core-service.exe: "@ + reason@),
    }
}

/// The message to log about starting the executable.
pub fn on_spawn(result: &SpawnResult) -> (r: Option<String>)
    ensures
        match r {
            Some(m) => spawn_message(*result) == Some(m@),
            None => spawn_message(*result) is None,
        },
{
    match result {
        SpawnResult::NoPath => None,
        SpawnResult::Missing => Some(
            "core-service.exe not found in watchdog directory.".to_owned(),
        ),
        SpawnResult::Spawned => Some("CoreService spawned directly from executable.".to_owned()),
        SpawnResult::Failed(reason) => Some(
            join2("Failed to spawn core-service.exe: ", reason.as_str()),
        ),
    }
}

// ---------------------------------------------------------------------------
// Laws
// ---------------------------------------------------------------------------

/// When the last restart was, after restarts were asked for at the given times,
/// in this order.
pub open spec fn last_after(last: u64, asked: Seq<u64>) -> u64
    decreases asked.len(),
{
    if asked.len() == 0 {
        last
    } else {
        let before = last_after(last, asked.drop_last());
        if restart_due(before, asked.last()) {
            asked.last()
        } else {
            before
        }
    }
}

/// Between two restarts there are eight seconds: once one was permitted at
/// `first`, and whatever was asked for since, another one is permitted only
/// eight seconds later, unless the clock went back in between.
pub proof fn law_restarts_keep_apart(first: u64, asked: Seq<u64>, now: u64)
    requires
        restart_due(last_after(first, asked), now),
        first <= now,
        forall|i: int| 0 <= i < asked.len() ==> first <= #[trigger] asked[i] <= now,
    ensures
        now - first >= 8,
{
    lemma_last_between(first, asked, now);
}

proof fn lemma_last_between(first: u64, asked: Seq<u64>, now: u64)
    requires
        first <= now,
        forall|i: int| 0 <= i < asked.len() ==> first <= #[trigger] asked[i] <= now,
    ensures
        first <= last_after(first, asked) <= now,
    decreases asked.len(),
{
    if asked.len() > 0 {
        let rest = asked.drop_last();
        assert forall|i: int| 0 <= i < rest.len() implies first <= #[trigger] rest[i] <= now by {
            assert(rest[i] == asked[i]);
        }
        lemma_last_between(first, rest, now);
        assert(first <= asked[asked.len() - 1] <= now);
    }
}

/// The core service is started only after what was left of it was ended, and
/// its executable only where the service control manager did not start it.
pub proof fn law_restart_in_order(call: RestartCall, done: bool)
    ensures
        restart_step(call, done) == Some(RestartCall::StartService) <==> call
            == RestartCall::KillCore,
        restart_step(call, done) == Some(RestartCall::SpawnExecutable) <==> call
            == RestartCall::StartService && !done,
        restart_step(call, done) != Some(RestartCall::Announce),
{
}

/// A core service that beats is never taken for dead.
pub proof fn law_heartbeat_prevents_restart(
    edition: Edition,
    timestamp: Seq<char>,
    state: NetworkState,
)
    ensures
        line_step(health::heartbeat_line(edition, timestamp, state)) == listening(
            "Watchdog verified: "@ + text::trim_end(
                health::heartbeat_text(edition, timestamp, state),
            ),
        ),
{
    health::law_heartbeat_is_heard(edition, timestamp, state);
}

/// The core service does not let the watchdog wait too long between two beats.
pub proof fn law_beats_come_in_time(edition: Edition, suspended: bool, timestamp: String)
    ensures
        ({
            let step = health::health_step(edition, HealthEvent::Beaten { suspended, timestamp });
            step.next == PipePhase::Serve && step.pause_ms < LISTEN_TIMEOUT_MS
        }),
{
}

/// Whatever ends the listening leads to a restart and a new attempt, and
/// nothing else does.
pub proof fn law_restart_iff_connection_lost(event: WatchEvent)
    ensures
        watch_step(event).restart <==> !(event is Connected || event is Line),
        watch_step(event).restart <==> watch_step(event).next == WatchPhase::Connect,
{
}

/// The monitor shows a restart by the watchdog as an emergency.
pub proof fn law_restart_is_shown_as_emergency()
    ensures
        translate::category_ru(restart_entry().category) == "Контроль"@,
        translate::message_ru(restart_entry().category, restart_entry().message)
            == "Обнаружено зависание Ядра! Выполняется экстренный перезапуск..."@,
{
    reveal_strlit("watchdog_event");
    reveal_strlit("process_blocked");
    reveal_strlit("system_override");
    reveal_strlit("system_status");
    assert("watchdog_event"@.len() == 14);
    assert("process_blocked"@.len() == 15);
    assert("system_override"@.len() == 15);
    assert("system_status"@.len() == 13);
    reveal_strlit("Watchdog triggered: CoreService stopped responding. Attempting restart...");
    reveal_strlit("CoreService stopped responding");
    let m = restart_entry().message;
    assert(m.subrange(20, 50) == "CoreService stopped responding"@);
    assert(text::occurs_at(m, "CoreService stopped responding"@, 20));
}

/// How the watchdog takes an event: whatever ends the connection makes it
/// restart the core service, wait two seconds and connect anew; a connection or
/// a line makes it listen on at once.
pub proof fn law_course_of_the_watchdog(event: WatchEvent)
    ensures
        ({
            let step = watch_step(event);
            let alive = event is Connected || event is Line;
            &&& step.restart == !alive
            &&& step.pause_ms == (if alive {
                0u64
            } else {
                2000
            })
            &&& step.next == (if alive {
                WatchPhase::Listen
            } else {
                WatchPhase::Connect
            })
        }),
{
}

/// What the watchdog logs of an event; of a line that begins with the word for a
/// heartbeat, white space aside, that it was verified, and of any other that it
/// was not expected.
pub proof fn law_log_of_the_watchdog(event: WatchEvent)
    ensures
        match event {
            WatchEvent::ConnectFailed(reason) => watch_step(event).message
                == "Failed to connect to named pipe: "@ + reason@
                + ". CoreService may be stopped or crashed."@,
            WatchEvent::Connected => watch_step(event).message
                == "Successfully connected to CoreService named pipe."@,
            WatchEvent::Closed => watch_step(event).message
                == "Connection to CoreService named pipe closed (EOF). Service may have terminated."@,
            WatchEvent::Line(line) => {
                let heartbeat = "HEARTBEAT"@.is_prefix_of(text::trimmed(line@));
                watch_step(event).message == (if heartbeat {
                    "Watchdog verified: "@
                } else {
                    "Received unexpected message from pipe: "@
                }) + text::trimmed(line@)
            },
            WatchEvent::ReadFailed(reason) => watch_step(event).message
                == "Error reading from named pipe: "@ + reason@ + ". Connection broken."@,
            WatchEvent::TimedOut => watch_step(event).message
                == "TIMEOUT: No heartbeat received from CoreService for 2 seconds. Service is unresponsive."@,
        },
{
}

/// A restart is permitted exactly if eight seconds have passed since the last
/// one, or the clock went back; so two restarts are never permitted in one
/// second, and one that was refused is permitted eight seconds after the last.
pub proof fn law_when_a_restart_is_due(last: u64, now: u64)
    ensures
        last <= now ==> (restart_due(last, now) <==> now - last >= 8),
        now < last && last - now <= 0xffff_ffff_ffff_fff8 ==> restart_due(last, now),
        now < last && last - now > 0xffff_ffff_ffff_fff8 ==> !restart_due(last, now),
        !restart_due(now, now),
{
}

/// A restart goes through its steps in one order: it is announced, what is left
/// of the core service is ended, the service is started, and only where that
/// was not done its executable is; with that it is over.
pub proof fn law_steps_of_a_restart(announced: bool, killed: bool, started: bool, spawned: bool)
    ensures
        restart_step(RestartCall::Announce, announced) == Some(RestartCall::KillCore),
        restart_step(RestartCall::KillCore, killed) == Some(RestartCall::StartService),
        restart_step(RestartCall::StartService, started) is None <==> started,
        !started ==> restart_step(RestartCall::StartService, started) == Some(
            RestartCall::SpawnExecutable,
        ),
        restart_step(RestartCall::SpawnExecutable, spawned) is None,
{
}

/// A line of the watchdog's log holds its time in brackets and its message, and
/// lines of different messages differ.
pub proof fn law_log_lines(time: Seq<char>, a: Seq<char>, b: Seq<char>)
    ensures
        log_line(time, a) == log_line(time, b) <==> a == b,
        log_line(time, a).len() == time.len() + a.len() + 4,
        log_line(time, a)[0] == '[',
        log_line(time, a).subrange(1, 1int + time.len()) == time,
        log_line(time, a)[1int + time.len()] == ']',
        log_line(time, a).subrange(3int + time.len(), 3int + time.len() + a.len()) == a,
        log_line(time, a).last() == '\n',
{
    reveal_strlit("[");
    reveal_strlit("] ");
    reveal_strlit("\n");
    let x = log_line(time, a);
    let y = log_line(time, b);
    assert(x.subrange(1, 1int + time.len()) =~= time);
    assert(x.subrange(3int + time.len(), 3int + time.len() + a.len()) =~= a);
    if x == y {
        assert(x.len() == time.len() + a.len() + 4 && y.len() == time.len() + b.len() + 4);
        assert(y.subrange(3int + time.len(), 3int + time.len() + b.len()) =~= b);
    }
}

/// A line of the event log is a JSON object of its four texts, in their places.
pub proof fn law_event_lines(
    time: Seq<char>,
    level: Seq<char>,
    category: Seq<char>,
    message: Seq<char>,
)
    ensures
        event_line(time, level, category, message) == "{\"timestamp\":\""@ + (time
            + "\",\"level\":\""@ + (level + "\",\"fields\":{\"category\":\""@ + (category
            + "\",\"message\":\""@ + (message + "\"}}\n"@)))),
{
    assert(event_line(time, level, category, message) =~= "{\"timestamp\":\""@ + (time
        + "\",\"level\":\""@ + (level + "\",\"fields\":{\"category\":\""@ + (category
        + "\",\"message\":\""@ + (message + "\"}}\n"@)))));
}

/// What is logged at a turn of the watchdog, and of starting the executable.
pub proof fn law_turns_are_told(turn: WatchdogTurn, result: SpawnResult)
    ensures
        turn is Started ==> turn_text(turn) == "Watchdog service started successfully."@,
        turn is ShutDown ==> turn_text(turn) == "Watchdog service shutdown signal received."@,
        turn is Unregistered ==> turn_text(turn) == "Failed to register service control handler."@,
        turn matches WatchdogTurn::NotDispatched(code) ==> turn_text(turn)
            == "Failed to start service control dispatcher: "@ + (numbers::decimal(code as nat)
            + "."@),
        turn matches WatchdogTurn::Failed(reason) ==> turn_text(turn)
            == "Watchdog Service error: "@ + reason@,
        spawn_message(result) is None <==> result is NoPath,
        result is Missing ==> spawn_message(result) == Some(
            "core-service.exe not found in watchdog directory."@,
        ),
        result is Spawned ==> spawn_message(result) == Some(
            "CoreService spawned directly from executable."@,
        ),
        result matches SpawnResult::Failed(reason) ==> spawn_message(result) == Some(
            "Failed to spawn core-service.exe: "@ + reason@,
        ),
        restart_entry().level == Level::Warn,
        restart_entry().category == "watchdog_event"@,
        restart_entry().message
            == "Watchdog triggered: CoreService stopped responding. Attempting restart..."@,
{
    if let WatchdogTurn::NotDispatched(code) = turn {
        assert(turn_text(turn) =~= "Failed to start service control dispatcher: "@ + (
        numbers::decimal(code as nat) + "."@));
    }
}

/// What is known of a step by its texts is what stands in it, and the watchdog
/// waits two seconds for a line.
pub proof fn law_watch_steps_are_seen_whole(step: WatchStep)
    ensures
        step@.message == step.message@,
        step@.restart == step.restart,
        step@.pause_ms == step.pause_ms,
        step@.next == step.next,
        LISTEN_TIMEOUT_MS == 2000,
{
}

} // verus!
