//! What the watchdog makes of a line from the core service.

use vstd::prelude::*;

use crate::text;
use crate::text::join2;
use crate::text::starts_with;
use crate::text::trim;

verus! {

/// What the watchdog heard.
#[derive(Debug, PartialEq)]
pub enum HeartbeatResult {
    /// A heartbeat.
    Beat(String),
    /// Nothing in time.
    Timeout,
    /// Something else.
    Error(String),
    /// The end of the connection.
    Eof,
}

/// What the watchdog heard, by its texts.
pub enum Heard {
    Beat(Seq<char>),
    Timeout,
    Error(Seq<char>),
    Eof,
}

impl View for HeartbeatResult {
    type V = Heard;

    open spec fn view(&self) -> Heard {
        match self {
            HeartbeatResult::Beat(t) => Heard::Beat(t@),
            HeartbeatResult::Timeout => Heard::Timeout,
            HeartbeatResult::Error(t) => Heard::Error(t@),
            HeartbeatResult::Eof => Heard::Eof,
        }
    }
}

/// What a line tells the watchdog.
pub open spec fn heard(line: Seq<char>) -> Heard {
    let message = text::trimmed(line);
    if message.len() == 0 {
        Heard::Eof
    } else if text::has_prefix(message, "HEARTBEAT"@) {
        Heard::Beat(message)
    } else {
        Heard::Error("Unexpected message: "@ + message)
    }
}

/// What a line tells the watchdog.
pub fn parse_heartbeat(line: &str) -> (r: HeartbeatResult)
    ensures
        r@ == heard(line@),
{
    let message = trim(line);
    if message.as_str().is_empty() {
        return HeartbeatResult::Eof;
    }
    if starts_with(message.as_str(), "HEARTBEAT") {
        HeartbeatResult::Beat(message)
    } else {
        HeartbeatResult::Error(join2("Unexpected message: ", message.as_str()))
    }
}

// ---------------------------------------------------------------------------
// Laws
// ---------------------------------------------------------------------------

/// Without the white space round it, a line is a heartbeat exactly if it begins
/// with that word, and then it is kept whole; nothing left is the end of the
/// connection, and anything else is told as it came.
pub proof fn law_lines_are_sorted(line: Seq<char>)
    ensures
        heard(line) is Eof <==> text::trimmed(line).len() == 0,
        heard(line) is Beat <==> text::has_prefix(text::trimmed(line), "HEARTBEAT"@),
        heard(line) is Beat ==> heard(line)->Beat_0 == text::trimmed(line),
        heard(line) is Error ==> heard(line)->Error_0 == "Unexpected message: "@ + text::trimmed(
            line,
        ),
        !(heard(line) is Timeout),
{
    reveal_strlit("HEARTBEAT");
}

/// What is known of what was heard by its texts is what stands in it.
pub proof fn law_results_are_seen_whole(r: HeartbeatResult)
    ensures
        r matches HeartbeatResult::Beat(t) ==> r@ == Heard::Beat(t@),
        r matches HeartbeatResult::Error(t) ==> r@ == Heard::Error(t@),
        r is Timeout <==> r@ is Timeout,
        r is Eof <==> r@ is Eof,
{
}

} // verus!
