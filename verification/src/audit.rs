//! Entries of the event log.

use vstd::prelude::*;

verus! {

/// How serious an entry is.
#[derive(Debug, Clone, Copy, PartialEq, Eq, Structural)]
pub enum Level {
    Error,
    Warn,
    Info,
}

impl Level {
    /// The name under which the level is logged.
    pub open spec fn name(self) -> Seq<char> {
        match self {
            Level::Error => "ERROR"@,
            Level::Warn => "WARN"@,
            Level::Info => "INFO"@,
        }
    }

    /// The name under which the level is logged.
    pub fn as_text(self) -> (r: &'static str)
        ensures
            r@ == self.name(),
    {
        match self {
            Level::Error => "ERROR",
            Level::Warn => "WARN",
            Level::Info => "INFO",
        }
    }
}

/// An entry of the event log.
#[derive(Debug)]
pub struct AuditEvent {
    pub level: Level,
    pub category: String,
    pub message: String,
}

/// An entry of the event log, by its texts.
pub struct AuditEntry {
    pub level: Level,
    pub category: Seq<char>,
    pub message: Seq<char>,
}

impl View for AuditEvent {
    type V = AuditEntry;

    open spec fn view(&self) -> AuditEntry {
        AuditEntry { level: self.level, category: self.category@, message: self.message@ }
    }
}

/// An entry, where there is one.
pub open spec fn entry_of(event: Option<AuditEvent>) -> Option<AuditEntry> {
    match event {
        Some(e) => Some(e@),
        None => None,
    }
}

impl AuditEvent {
    /// An entry of the given texts.
    pub fn new(level: Level, category: &str, message: &str) -> (r: AuditEvent)
        ensures
            r@ == (AuditEntry { level, category: category@, message: message@ }),
    {
        AuditEvent { level, category: category.to_owned(), message: message.to_owned() }
    }
}

/// The levels are logged under names of their own.
pub proof fn law_levels_are_named(level: Level)
    ensures
        level == Level::Error <==> level.name() == "ERROR"@,
        level == Level::Warn <==> level.name() == "WARN"@,
        level == Level::Info <==> level.name() == "INFO"@,
{
    reveal_strlit("ERROR");
    reveal_strlit("WARN");
    reveal_strlit("INFO");
    assert("ERROR"@.len() == 5 && "WARN"@[0] == 'W' && "INFO"@[0] == 'I' && "WARN"@.len() == 4
        && "INFO"@.len() == 4);
}

/// What is known of an entry by its texts is what stands in it.
pub proof fn law_entries_are_seen_whole(e: AuditEvent)
    ensures
        e@.level == e.level,
        e@.category == e.category@,
        e@.message == e.message@,
        entry_of(Some(e)) == Some(e@),
        entry_of(None) is None,
{
}

} // verus!
