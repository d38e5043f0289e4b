//! The monitor's state: what it has read, what is being entered and what it
//! tells its user.

use vstd::prelude::*;

use crate::admin;
use crate::admin::Request;
use crate::admin::add_block_command;
use crate::admin::remove_block_command;
use crate::admin::resume_command;
use crate::admin::suspend_command;
use crate::audit::AuditEntry;
use crate::casing;
use crate::client;
use crate::health;
use crate::network::Edition;
use crate::text;
use crate::text::join2;
use crate::text::join3;
use crate::text::replace;
use crate::text::same;
use crate::text::strip_prefix;
use crate::text::trim;
use crate::text::without_last;
use crate::translate;
use crate::translate::mentions_suspension;

verus! {

// ---------------------------------------------------------------------------
// Logged events
// ---------------------------------------------------------------------------

/// What a logged event says.
#[derive(Debug)]
pub struct TracingFields {
    pub category: Option<String>,
    pub message: Option<String>,
}

/// A logged event.
#[derive(Debug)]
pub struct TracingEvent {
    pub timestamp: String,
    pub level: String,
    pub fields: TracingFields,
}

/// A logged event, by its texts.
pub struct LogEntry {
    pub timestamp: Seq<char>,
    pub level: Seq<char>,
    pub category: Option<Seq<char>>,
    pub message: Option<Seq<char>>,
}

impl View for TracingEvent {
    type V = LogEntry;

    open spec fn view(&self) -> LogEntry {
        LogEntry {
            timestamp: self.timestamp@,
            level: self.level@,
            category: text::text_of(self.fields.category),
            message: text::text_of(self.fields.message),
        }
    }
}

/// Logged events, by their texts.
pub open spec fn entries(events: Seq<TracingEvent>) -> Seq<LogEntry> {
    events.map_values(|e: TracingEvent| e@)
}

/// The event tells that blocking is suspended.
pub open spec fn tells_suspension(e: LogEntry) -> bool {
    &&& e.category == Some("system_override"@) || e.category == Some("system_status"@)
    &&& e.message matches Some(m) && translate::tells_suspended(m)
}

/// One of the events tells that blocking is suspended.
pub open spec fn suspension_logged(events: Seq<LogEntry>) -> bool {
    exists|i: int| 0 <= i < events.len() && tells_suspension(#[trigger] events[i])
}

fn is_suspension(e: &TracingEvent) -> (r: bool)
    ensures
        r == tells_suspension(e@),
{
    match &e.fields.category {
        Some(category) => if same(category.as_str(), "system_override") || same(
            category.as_str(),
            "system_status",
        ) {
            match &e.fields.message {
                Some(message) => mentions_suspension(message.as_str()),
                None => false,
            }
        } else {
            false
        },
        None => false,
    }
}

fn has_suspension(events: &Vec<TracingEvent>) -> (r: bool)
    ensures
        r == suspension_logged(entries(events@)),
{
    let mut i: usize = 0;
    while i < events.len()
        invariant
            i <= events.len(),
            forall|j: int| 0 <= j < i ==> !tells_suspension(#[trigger] entries(events@)[j]),
        decreases events.len() - i,
    {
        assert(entries(events@)[i as int] == events@[i as int]@);
        if is_suspension(&events[i]) {
            return true;
        }
        i = i + 1;
    }
    false
}

/// The number of events that the monitor shows.
pub const MAX_EVENTS: usize = 50;

/// The last events, as many as are shown.
pub open spec fn latest(events: Seq<LogEntry>) -> Seq<LogEntry> {
    if events.len() > MAX_EVENTS {
        events.skip(events.len() - MAX_EVENTS)
    } else {
        events
    }
}

// ---------------------------------------------------------------------------
// The state of the protection
// ---------------------------------------------------------------------------

/// The state that a reply to `STATUS` tells, in capitals, or the text of the
/// error.
pub open spec fn live_told(response: Seq<char>) -> Result<Seq<char>, Seq<char>> {
    let reply = text::trimmed(response);
    if text::has_prefix(reply, "STATE: "@) {
        Ok(casing::upper_case(reply.skip(7)))
    } else {
        Err("Invalid status response"@)
    }
}

/// The state that a reply to `STATUS` tells, in capitals, or the text of the
/// error.
pub fn live_status(response: &str) -> (r: Result<String, String>)
    ensures
        match r {
            Ok(state) => live_told(response@) == Ok::<Seq<char>, Seq<char>>(state@),
            Err(e) => live_told(response@) == Err::<Seq<char>, Seq<char>>(e@),
        },
{
    proof {
        reveal_strlit("STATE: ");
    }
    let reply = trim(response);
    match strip_prefix(reply.as_str(), "STATE: ") {
        Some(state) => Ok(state.as_str().to_uppercase()),
        None => Err("Invalid status response".to_owned()),
    }
}

/// The state of the protection: what the core service replied, or, where it
/// gave no usable reply, what the log tells.
pub open spec fn protection(response: Option<Seq<char>>, events: Seq<LogEntry>) -> Seq<char> {
    match response {
        Some(r) if live_told(r) is Ok => live_told(r)->Ok_0,
        _ => if suspension_logged(events) {
            "SUSPENDED"@
        } else {
            "ACTIVE"@
        },
    }
}

// ---------------------------------------------------------------------------
// Commands
// ---------------------------------------------------------------------------

/// A command to the core service.
#[derive(Debug)]
pub enum Command {
    Suspend { password: String },
    Resume { password: String },
    AddBlock { password: String, process: String },
    RemoveBlock { password: String, process: String },
}

impl View for Command {
    type V = Request;

    open spec fn view(&self) -> Request {
        match self {
            Command::Suspend { password } => Request::Suspend(password@),
            Command::Resume { password } => Request::Resume(password@),
            Command::AddBlock { password, process } => Request::AddBlock {
                password: password@,
                name: process@,
            },
            Command::RemoveBlock { password, process } => Request::RemoveBlock {
                password: password@,
                name: process@,
            },
        }
    }
}

/// The line that makes a request.
pub open spec fn line_of(request: Request) -> Seq<char> {
    match request {
        Request::Suspend(password) => admin::suspend_line(password),
        Request::Resume(password) => admin::resume_line(password),
        Request::AddBlock { password, name } => admin::add_line(password, name),
        Request::RemoveBlock { password, name } => admin::remove_line(password, name),
        _ => admin::status_line(),
    }
}

/// What the user is told of a request that was carried out.
pub open spec fn done_text(request: Request) -> Seq<char> {
    match request {
        Request::Suspend(_) => "УСПЕШНО: Защита приостановлена."@,
        Request::Resume(_) => "УСПЕШНО: Защита активирована."@,
        Request::AddBlock { name, .. } => "УСПЕШНО: Процесс '"@ + name + "' заблокирован."@,
        Request::RemoveBlock { name, .. } => "УСПЕШНО: Блокировка с '"@ + name + "' снята."@,
        _ => Seq::empty(),
    }
}

/// The service's wording of a refusal, with its known phrases in Russian.
pub open spec fn refusal_ru(request: Request, reply: Seq<char>) -> Seq<char> {
    let m = text::replaced(reply, "Invalid password"@, "Неверный пароль"@);
    match request {
        Request::AddBlock { .. } => text::replaced(
            m,
            "Process already blocked"@,
            "Процесс уже заблокирован"@,
        ),
        Request::RemoveBlock { .. } => text::replaced(
            m,
            "Process not found"@,
            "Процесс не найден в списке"@,
        ),
        _ => m,
    }
}

/// What the user is told of a request, and whether it is good news: `answer`
/// is the line that came back, or why none did.
pub open spec fn feedback_on(request: Request, answer: Result<Seq<char>, Seq<char>>) -> (
    Seq<char>,
    bool,
) {
    match answer {
        Ok(response) => if text::trimmed(response) == "OK"@ {
            (done_text(request), true)
        } else {
            ("ОШИБКА: "@ + refusal_ru(request, text::trimmed(response)), false)
        },
        Err(e) => ("Ошибка связи: "@ + e, false),
    }
}

impl Command {
    /// The line that gives the command.
    pub fn line(&self) -> (r: String)
        ensures
            r@ == line_of(self@),
    {
        match self {
            Command::Suspend { password } => suspend_command(password.as_str()),
            Command::Resume { password } => resume_command(password.as_str()),
            Command::AddBlock { password, process } => add_block_command(
                password.as_str(),
                process.as_str(),
            ),
            Command::RemoveBlock { password, process } => remove_block_command(
                password.as_str(),
                process.as_str(),
            ),
        }
    }

    fn success(&self) -> (r: String)
        ensures
            r@ == done_text(self@),
    {
        match self {
            Command::Suspend { .. } => "УСПЕШНО: Защита приостановлена.".to_owned(),
            Command::Resume { .. } => "УСПЕШНО: Защита активирована.".to_owned(),
            Command::AddBlock { process, .. } => join3(
                "УСПЕШНО: Процесс '",
                process.as_str(),
                "' заблокирован.",
            ),
            Command::RemoveBlock { process, .. } => join3(
                "УСПЕШНО: Блокировка с '",
                process.as_str(),
                "' снята.",
            ),
        }
    }

    fn refusal(&self, reply: &str) -> (r: String)
        ensures
            r@ == refusal_ru(self@, reply@),
    {
        proof {
            reveal_strlit("Invalid password");
            reveal_strlit("Process already blocked");
            reveal_strlit("Process not found");
        }
        let m = replace(reply, "Invalid password", "Неверный пароль");
        match self {
            Command::AddBlock { .. } => replace(
                m.as_str(),
                "Process already blocked",
                "Процесс уже заблокирован",
            ),
            Command::RemoveBlock { .. } => replace(
                m.as_str(),
                "Process not found",
                "Процесс не найден в списке",
            ),
            _ => m,
        }
    }

    /// What the user is told of the command, and whether it is good news.
    pub fn feedback(&self, answer: Result<&str, &str>) -> (r: (String, bool))
        ensures
            (r.0@, r.1) == feedback_on(
                self@,
                match answer {
                    Ok(response) => Ok(response@),
                    Err(e) => Err(e@),
                },
            ),
    {
        match answer {
            Ok(response) => {
                let reply = trim(response);
                if same(reply.as_str(), "OK") {
                    (self.success(), true)
                } else {
                    let wording = self.refusal(reply.as_str());
                    (join2("ОШИБКА: ", wording.as_str()), false)
                }
            },
            Err(e) => (join2("Ошибка связи: ", e), false),
        }
    }
}

// ---------------------------------------------------------------------------
// The monitor
// ---------------------------------------------------------------------------

/// What the user is asked for.
#[derive(Debug, Clone, Copy, PartialEq, Eq, Structural)]
pub enum InputMode {
    Normal,
    PromptingSuspend,
    PromptingResume,
    PromptingAddBlockName,
    PromptingAddBlockPassword,
    PromptingRemoveBlockName,
    PromptingRemoveBlockPassword,
}

impl InputMode {
    /// The user is asked for the name of a process.
    pub open spec fn asks_name(self) -> bool {
        self == InputMode::PromptingAddBlockName || self == InputMode::PromptingRemoveBlockName
    }

    /// The user is asked for the password to a change of the block list.
    pub open spec fn asks_list_password(self) -> bool {
        self == InputMode::PromptingAddBlockPassword || self
            == InputMode::PromptingRemoveBlockPassword
    }

    /// The user is asked for the password to a suspension or a resumption.
    pub open spec fn asks_switch_password(self) -> bool {
        self == InputMode::PromptingSuspend || self == InputMode::PromptingResume
    }

    /// Whether the user is asked for the name of a process.
    pub fn takes_name(&self) -> (r: bool)
        ensures
            r == self.asks_name(),
    {
        match self {
            InputMode::PromptingAddBlockName | InputMode::PromptingRemoveBlockName => true,
            _ => false,
        }
    }
}

/// A key that was pressed.
#[derive(Debug, Clone, Copy, PartialEq, Eq, Structural)]
pub enum Key {
    Char(char),
    Enter,
    Esc,
    Backspace,
    Other,
}

/// What a key asks of the program.
#[derive(Debug)]
pub enum KeyAction {
    /// To go on.
    Stay,
    /// To end.
    Quit,
    /// To send a command.
    Send(Command),
}

/// What a key asks of the program, by its texts.
pub enum KeyOutcome {
    Stay,
    Quit,
    Send(Request),
}

impl View for KeyAction {
    type V = KeyOutcome;

    open spec fn view(&self) -> KeyOutcome {
        match self {
            KeyAction::Stay => KeyOutcome::Stay,
            KeyAction::Quit => KeyOutcome::Quit,
            KeyAction::Send(command) => KeyOutcome::Send(command@),
        }
    }
}

/// The monitor's state.
#[derive(Debug)]
pub struct AppState {
    events: Vec<TracingEvent>,
    file_offset: u64,
    log_path: String,
    core_status: String,
    watchdog_status: String,
    suspended_status: String,
    input_mode: InputMode,
    password_input: String,
    process_input: String,
    feedback_message: Option<(String, bool)>,
    feedback_timeout: Option<u64>,
}

/// The monitor's state, by its texts.
#[verifier::ext_equal]
pub struct Monitor {
    /// The events that were read from the log.
    pub events: Seq<LogEntry>,
    /// How far the log has been read.
    pub offset: u64,
    /// Where the log is.
    pub path: Seq<char>,
    /// The state of the core service.
    pub core: Seq<char>,
    /// The state of the watchdog.
    pub watchdog: Seq<char>,
    /// The state of the protection.
    pub protection: Seq<char>,
    /// What the user is asked for.
    pub mode: InputMode,
    /// The password as far as it was entered.
    pub password: Seq<char>,
    /// The process name as far as it was entered.
    pub process: Seq<char>,
    /// What the user is told, and whether it is good news.
    pub feedback: Option<(Seq<char>, bool)>,
    /// The last nanosecond at which the user is told it.
    pub deadline: Option<u64>,
}

/// A monitor that has read nothing yet.
pub open spec fn fresh(path: Seq<char>) -> Monitor {
    Monitor {
        events: Seq::empty(),
        offset: 0,
        path,
        core: "UNKNOWN"@,
        watchdog: "UNKNOWN"@,
        protection: "UNKNOWN"@,
        mode: InputMode::Normal,
        password: Seq::empty(),
        process: Seq::empty(),
        feedback: None,
        deadline: None,
    }
}

/// How long the user is told how a command ended, in nanoseconds.
pub const FEEDBACK_NANOS: u64 = 4_000_000_000;

/// The user is told something from `now` on.
pub open spec fn telling(m: Monitor, feedback: (Seq<char>, bool), now: u64) -> Monitor {
    Monitor {
        feedback: Some(feedback),
        deadline: Some((now + FEEDBACK_NANOS) as u64),
        ..m
    }
}

/// The user is told nothing any more once the time for it is over.
pub open spec fn expired(m: Monitor, now: u64) -> Monitor {
    if m.deadline matches Some(t) && now > t {
        Monitor { feedback: None, deadline: None, ..m }
    } else {
        m
    }
}

/// A log of `file_len` bytes is about to be read: one that has become shorter
/// is read anew.
pub open spec fn reading(m: Monitor, file_len: u64) -> Monitor {
    if file_len < m.offset {
        Monitor { offset: 0, events: Seq::empty(), ..m }
    } else {
        m
    }
}

/// Events were read from a log of `file_len` bytes, to its end or only up to
/// a line that could not be read.
pub open spec fn having_read(
    m: Monitor,
    file_len: u64,
    new: Seq<LogEntry>,
    to_the_end: bool,
) -> Monitor {
    if to_the_end {
        Monitor { events: latest(m.events + new), offset: file_len, ..m }
    } else {
        Monitor { events: m.events + new, ..m }
    }
}

/// What is being entered.
pub open spec fn input(m: Monitor) -> Seq<char> {
    if m.mode.asks_name() {
        m.process
    } else {
        m.password
    }
}

/// Something else is being entered.
pub open spec fn with_input(m: Monitor, input: Seq<char>) -> Monitor {
    if m.mode.asks_name() {
        Monitor { process: input, ..m }
    } else {
        Monitor { password: input, ..m }
    }
}

/// The prompt is closed and what was entered in it forgotten.
pub open spec fn prompt_closed(m: Monitor) -> Monitor {
    Monitor {
        mode: InputMode::Normal,
        password: if m.mode.asks_name() {
            m.password
        } else {
            Seq::empty()
        },
        process: if m.mode.asks_switch_password() {
            m.process
        } else {
            Seq::empty()
        },
        ..m
    }
}

/// The input is confirmed: a password makes the request, a name leads on to
/// the password, unless there is nothing but white space.
pub open spec fn confirmed(m: Monitor) -> (Monitor, KeyOutcome) {
    let named = text::trimmed(m.process).len() > 0;
    match m.mode {
        InputMode::Normal => (m, KeyOutcome::Stay),
        InputMode::PromptingSuspend => (
            prompt_closed(m),
            KeyOutcome::Send(Request::Suspend(m.password)),
        ),
        InputMode::PromptingResume => (
            prompt_closed(m),
            KeyOutcome::Send(Request::Resume(m.password)),
        ),
        InputMode::PromptingAddBlockName => if named {
            (Monitor { mode: InputMode::PromptingAddBlockPassword, ..m }, KeyOutcome::Stay)
        } else {
            (m, KeyOutcome::Stay)
        },
        InputMode::PromptingAddBlockPassword => (
            prompt_closed(m),
            KeyOutcome::Send(Request::AddBlock { password: m.password, name: m.process }),
        ),
        InputMode::PromptingRemoveBlockName => if named {
            (Monitor { mode: InputMode::PromptingRemoveBlockPassword, ..m }, KeyOutcome::Stay)
        } else {
            (m, KeyOutcome::Stay)
        },
        InputMode::PromptingRemoveBlockPassword => (
            prompt_closed(m),
            KeyOutcome::Send(Request::RemoveBlock { password: m.password, name: m.process }),
        ),
    }
}

/// What a letter does while nothing is asked for.
pub open spec fn chosen(m: Monitor, c: char) -> (Monitor, KeyOutcome) {
    let asked = Monitor { password: Seq::empty(), feedback: None, ..m };
    if c == 'q' {
        (m, KeyOutcome::Quit)
    } else if c == '1' {
        (Monitor { mode: InputMode::PromptingSuspend, ..asked }, KeyOutcome::Stay)
    } else if c == '2' {
        (Monitor { mode: InputMode::PromptingResume, ..asked }, KeyOutcome::Stay)
    } else if c == '3' {
        (
            Monitor { mode: InputMode::PromptingAddBlockName, process: Seq::empty(), ..asked },
            KeyOutcome::Stay,
        )
    } else if c == '4' {
        (
            Monitor { mode: InputMode::PromptingRemoveBlockName, process: Seq::empty(), ..asked },
            KeyOutcome::Stay,
        )
    } else {
        (m, KeyOutcome::Stay)
    }
}

/// What a key does.
pub open spec fn key_step(m: Monitor, key: Key) -> (Monitor, KeyOutcome) {
    if m.mode == InputMode::Normal {
        match key {
            Key::Char(c) => chosen(m, c),
            _ => (m, KeyOutcome::Stay),
        }
    } else {
        match key {
            Key::Char(c) => (with_input(m, input(m).push(c)), KeyOutcome::Stay),
            Key::Backspace => (
                with_input(
                    m,
                    if input(m).len() > 0 {
                        input(m).drop_last()
                    } else {
                        input(m)
                    },
                ),
                KeyOutcome::Stay,
            ),
            Key::Esc => (prompt_closed(m), KeyOutcome::Stay),
            Key::Enter => confirmed(m),
            Key::Other => (m, KeyOutcome::Stay),
        }
    }
}

/// What the user is told, by its text.
pub open spec fn told(feedback: Option<(String, bool)>) -> Option<(Seq<char>, bool)> {
    match feedback {
        Some((message, good)) => Some((message@, good)),
        None => None,
    }
}

impl View for AppState {
    type V = Monitor;

    closed spec fn view(&self) -> Monitor {
        Monitor {
            events: entries(self.events@),
            offset: self.file_offset,
            path: self.log_path@,
            core: self.core_status@,
            watchdog: self.watchdog_status@,
            protection: self.suspended_status@,
            mode: self.input_mode,
            password: self.password_input@,
            process: self.process_input@,
            feedback: told(self.feedback_message),
            deadline: self.feedback_timeout,
        }
    }
}

impl AppState {
    /// A monitor of the log at `log_path` that has read nothing yet.
    pub fn new(log_path: &str) -> (r: AppState)
        ensures
            r@ == fresh(log_path@),
    {
        let r = AppState {
            events: Vec::new(),
            file_offset: 0,
            log_path: log_path.to_owned(),
            core_status: "UNKNOWN".to_owned(),
            watchdog_status: "UNKNOWN".to_owned(),
            suspended_status: "UNKNOWN".to_owned(),
            input_mode: InputMode::Normal,
            password_input: String::new(),
            process_input: String::new(),
            feedback_message: None,
            feedback_timeout: None,
        };
        assert(r@ =~= fresh(log_path@));
        r
    }

    /// Where the log is.
    pub fn log_path(&self) -> (r: &str)
        ensures
            r@ == self@.path,
    {
        self.log_path.as_str()
    }

    /// The events that were read from the log.
    pub fn events(&self) -> (r: &Vec<TracingEvent>)
        ensures
            entries(r@) == self@.events,
    {
        &self.events
    }

    /// How far the log has been read.
    pub fn file_offset(&self) -> (r: u64)
        ensures
            r == self@.offset,
    {
        self.file_offset
    }

    /// The state of the core service.
    pub fn core_status(&self) -> (r: &str)
        ensures
            r@ == self@.core,
    {
        self.core_status.as_str()
    }

    /// The state of the watchdog.
    pub fn watchdog_status(&self) -> (r: &str)
        ensures
            r@ == self@.watchdog,
    {
        self.watchdog_status.as_str()
    }

    /// The state of the protection.
    pub fn suspended_status(&self) -> (r: &str)
        ensures
            r@ == self@.protection,
    {
        self.suspended_status.as_str()
    }

    /// What the user is asked for.
    pub fn input_mode(&self) -> (r: InputMode)
        ensures
            r == self@.mode,
    {
        self.input_mode
    }

    /// The password as far as it was entered.
    pub(crate) fn password_input(&self) -> (r: &str)
        ensures
            r@ == self@.password,
    {
        self.password_input.as_str()
    }

    /// The process name as far as it was entered.
    pub(crate) fn process_input(&self) -> (r: &str)
        ensures
            r@ == self@.process,
    {
        self.process_input.as_str()
    }

    /// What the user is told, and whether it is good news.
    pub fn feedback_message(&self) -> (r: Option<(&str, bool)>)
        ensures
            match r {
                Some((message, good)) => self@.feedback == Some((message@, good)),
                None => self@.feedback is None,
            },
    {
        match &self.feedback_message {
            Some((message, good)) => Some((message.as_str(), *good)),
            None => None,
        }
    }

    /// The states of the services are `core_status` and `watchdog_status`, and
    /// the core service replied `response` to `STATUS`, if it did.
    pub fn update_system_state(
        &mut self,
        core_status: &str,
        watchdog_status: &str,
        response: Option<&str>,
    )
        ensures
            final(self)@ == (Monitor {
                core: core_status@,
                watchdog: watchdog_status@,
                protection: protection(
                    match response {
                        Some(r) => Some(r@),
                        None => None,
                    },
                    old(self)@.events,
                ),
                ..old(self)@
            }),
    {
        let live = match response {
            Some(r) => match live_status(r) {
                Ok(state) => Some(state),
                Err(_) => None,
            },
            None => None,
        };
        let state = match live {
            Some(state) => state,
            None => if has_suspension(&self.events) {
                "SUSPENDED".to_owned()
            } else {
                "ACTIVE".to_owned()
            },
        };
        self.core_status = core_status.to_owned();
        self.watchdog_status = watchdog_status.to_owned();
        self.suspended_status = state;
    }

    /// Begins to read a log of `file_len` bytes; returns where to read on.
    pub fn begin_reading(&mut self, file_len: u64) -> (r: u64)
        ensures
            final(self)@ == reading(old(self)@, file_len),
            r == final(self)@.offset,
    {
        if file_len < self.file_offset {
            self.file_offset = 0;
            self.events = Vec::new();
            assert(entries(self.events@) =~= Seq::<LogEntry>::empty());
        }
        self.file_offset
    }

    /// Takes the events that were read from a log of `file_len` bytes: to its
    /// end or only up to a line that could not be read.
    pub fn read_new_logs(&mut self, file_len: u64, new: Vec<TracingEvent>, to_the_end: bool)
        ensures
            final(self)@ == having_read(old(self)@, file_len, entries(new@), to_the_end),
    {
        let mut new = new;
        let ghost all = self.events@ + new@;
        assert(entries(all) =~= entries(self.events@) + entries(new@));
        self.events.append(&mut new);
        if to_the_end {
            let n: usize = self.events.len();
            if n > MAX_EVENTS {
                self.events = self.events.split_off(n - MAX_EVENTS);
                assert(entries(self.events@) =~= latest(entries(all)));
            }
            self.file_offset = file_len;
        }
    }

    /// Tells the user something from the nanosecond `now` on.
    pub fn set_feedback(&mut self, message: &str, is_success: bool, now: u64)
        requires
            now + FEEDBACK_NANOS <= u64::MAX,
        ensures
            final(self)@ == telling(old(self)@, (message@, is_success), now),
    {
        self.feedback_message = Some((message.to_owned(), is_success));
        self.feedback_timeout = Some(now + FEEDBACK_NANOS);
    }

    /// Stops telling the user something once the time for it is over.
    pub fn check_feedback_expiry(&mut self, now: u64)
        ensures
            final(self)@ == expired(old(self)@, now),
    {
        if let Some(timeout) = self.feedback_timeout {
            if now > timeout {
                self.feedback_message = None;
                self.feedback_timeout = None;
            }
        }
    }

    /// Takes the answer to a command, at the nanosecond `now`: the line that
    /// came back, or why none did.
    pub fn take_answer(&mut self, command: &Command, answer: Result<&str, &str>, now: u64)
        requires
            now + FEEDBACK_NANOS <= u64::MAX,
        ensures
            final(self)@ == telling(
                old(self)@,
                feedback_on(
                    command@,
                    match answer {
                        Ok(response) => Ok(response@),
                        Err(e) => Err(e@),
                    },
                ),
                now,
            ),
    {
        let (message, good) = command.feedback(answer);
        self.set_feedback(message.as_str(), good, now);
    }

    fn close_prompt(&mut self)
        ensures
            final(self)@ == prompt_closed(old(self)@),
    {
        if !self.input_mode.takes_name() {
            self.password_input = String::new();
        }
        match self.input_mode {
            InputMode::PromptingSuspend | InputMode::PromptingResume => {},
            _ => {
                self.process_input = String::new();
            },
        }
        self.input_mode = InputMode::Normal;
        assert(self@ =~= prompt_closed(old(self)@));
    }

    fn confirm(&mut self) -> (r: KeyAction)
        requires
            old(self)@.mode != InputMode::Normal,
        ensures
            (final(self)@, r@) == confirmed(old(self)@),
    {
        proof {
            reveal_strlit("");
        }
        match self.input_mode {
            InputMode::Normal => KeyAction::Stay,
            InputMode::PromptingSuspend => {
                let password = self.password_input.as_str().to_owned();
                self.close_prompt();
                KeyAction::Send(Command::Suspend { password })
            },
            InputMode::PromptingResume => {
                let password = self.password_input.as_str().to_owned();
                self.close_prompt();
                KeyAction::Send(Command::Resume { password })
            },
            InputMode::PromptingAddBlockName => {
                let name = trim(self.process_input.as_str());
                assert(name@.len() == 0 ==> name@ =~= ""@);
                if !same(name.as_str(), "") {
                    self.input_mode = InputMode::PromptingAddBlockPassword;
                }
                KeyAction::Stay
            },
            InputMode::PromptingAddBlockPassword => {
                let password = self.password_input.as_str().to_owned();
                let process = self.process_input.as_str().to_owned();
                self.close_prompt();
                KeyAction::Send(Command::AddBlock { password, process })
            },
            InputMode::PromptingRemoveBlockName => {
                let name = trim(self.process_input.as_str());
                assert(name@.len() == 0 ==> name@ =~= ""@);
                if !same(name.as_str(), "") {
                    self.input_mode = InputMode::PromptingRemoveBlockPassword;
                }
                KeyAction::Stay
            },
            InputMode::PromptingRemoveBlockPassword => {
                let password = self.password_input.as_str().to_owned();
                let process = self.process_input.as_str().to_owned();
                self.close_prompt();
                KeyAction::Send(Command::RemoveBlock { password, process })
            },
        }
    }

    fn ask(&mut self, mode: InputMode)
        ensures
            final(self)@ == (Monitor {
                mode,
                password: Seq::empty(),
                process: if mode.asks_name() {
                    Seq::empty()
                } else {
                    old(self)@.process
                },
                feedback: None,
                ..old(self)@
            }),
    {
        self.input_mode = mode;
        self.password_input = String::new();
        if mode.takes_name() {
            self.process_input = String::new();
        }
        self.feedback_message = None;
        assert(self.password_input@ =~= Seq::<char>::empty());
        assert(mode.asks_name() ==> self.process_input@ =~= Seq::<char>::empty());
    }

    /// Takes a key that was pressed.
    pub fn on_key(&mut self, key: Key) -> (r: KeyAction)
        ensures
            (final(self)@, r@) == key_step(old(self)@, key),
    {
        if self.input_mode == InputMode::Normal {
            if let Key::Char(c) = key {
                if c == 'q' {
                    return KeyAction::Quit;
                } else if c == '1' {
                    self.ask(InputMode::PromptingSuspend);
                } else if c == '2' {
                    self.ask(InputMode::PromptingResume);
                } else if c == '3' {
                    self.ask(InputMode::PromptingAddBlockName);
                } else if c == '4' {
                    self.ask(InputMode::PromptingRemoveBlockName);
                }
            }
            return KeyAction::Stay;
        }
        match key {
            Key::Char(c) => {
                if self.input_mode.takes_name() {
                    self.process_input.push(c);
                } else {
                    self.password_input.push(c);
                }
                KeyAction::Stay
            },
            Key::Backspace => {
                if self.input_mode.takes_name() {
                    self.process_input = without_last(self.process_input.as_str());
                } else {
                    self.password_input = without_last(self.password_input.as_str());
                }
                KeyAction::Stay
            },
            Key::Esc => {
                self.close_prompt();
                KeyAction::Stay
            },
            Key::Enter => self.confirm(),
            Key::Other => KeyAction::Stay,
        }
    }
}

// ---------------------------------------------------------------------------
// Laws
// ---------------------------------------------------------------------------

/// Nothing is kept that is not asked for: no input outside a prompt, no
/// process name under a suspension or a resumption, no password before the
/// process is named; and the password to a change of the block list is asked
/// for only once a process is named.
pub open spec fn tidy(m: Monitor) -> bool {
    &&& m.mode == InputMode::Normal ==> m.password.len() == 0 && m.process.len() == 0
    &&& m.mode.asks_switch_password() ==> m.process.len() == 0
    &&& m.mode.asks_name() ==> m.password.len() == 0
    &&& m.mode.asks_list_password() ==> text::trimmed(m.process).len() > 0
}

/// A new monitor keeps nothing that is not asked for.
pub proof fn law_fresh_is_tidy(path: Seq<char>)
    ensures
        tidy(fresh(path)),
{
}

/// Whatever keys are pressed, nothing is kept that is not asked for.
pub proof fn law_keys_keep_tidy(m: Monitor, key: Key)
    requires
        tidy(m),
    ensures
        tidy(key_step(m, key).0),
{
}

/// What is read, shown or told does not touch what is being entered.
pub proof fn law_input_is_left_alone(
    m: Monitor,
    file_len: u64,
    new: Seq<LogEntry>,
    to_the_end: bool,
    feedback: (Seq<char>, bool),
    now: u64,
)
    requires
        tidy(m),
    ensures
        tidy(reading(m, file_len)),
        tidy(having_read(m, file_len, new, to_the_end)),
        tidy(telling(m, feedback, now)),
        tidy(expired(m, now)),
{
}

/// Backspace takes back the last letter.
pub proof fn law_backspace_undoes_a_letter(m: Monitor, c: char)
    requires
        m.mode != InputMode::Normal,
    ensures
        key_step(key_step(m, Key::Char(c)).0, Key::Backspace) == (m, KeyOutcome::Stay),
{
    assert(input(m).push(c).drop_last() =~= input(m));
    assert(key_step(key_step(m, Key::Char(c)).0, Key::Backspace).0 =~= m);
}

/// Escape leaves every prompt, sends nothing and forgets what was entered.
pub proof fn law_escape_forgets(m: Monitor)
    requires
        tidy(m),
        m.mode != InputMode::Normal,
    ensures
        key_step(m, Key::Esc).1 == KeyOutcome::Stay,
        key_step(m, Key::Esc).0.mode == InputMode::Normal,
        key_step(m, Key::Esc).0.password.len() == 0,
        key_step(m, Key::Esc).0.process.len() == 0,
{
}

/// A request is made only where a password is confirmed; it carries the
/// password and the process as they were entered, and neither is kept.
pub proof fn law_only_confirmed_passwords_are_sent(m: Monitor, key: Key)
    requires
        tidy(m),
        key_step(m, key).1 is Send,
    ensures
        key == Key::Enter,
        m.mode.asks_switch_password() || m.mode.asks_list_password(),
        ({
            let request = key_step(m, key).1->Send_0;
            &&& request.password() == Some(m.password)
            &&& match request {
                Request::Suspend(_) => m.mode == InputMode::PromptingSuspend,
                Request::Resume(_) => m.mode == InputMode::PromptingResume,
                Request::AddBlock { name, .. } => m.mode == InputMode::PromptingAddBlockPassword
                    && name == m.process,
                Request::RemoveBlock { name, .. } => m.mode
                    == InputMode::PromptingRemoveBlockPassword && name == m.process,
                _ => false,
            }
        }),
        key_step(m, key).0.mode == InputMode::Normal,
        key_step(m, key).0.password.len() == 0,
        key_step(m, key).0.process.len() == 0,
{
}

/// Only `q` ends the program, and only while nothing is asked for.
pub proof fn law_only_q_quits(m: Monitor, key: Key)
    ensures
        key_step(m, key).1 is Quit <==> m.mode == InputMode::Normal && key == Key::Char('q'),
{
}

/// The core service understands what a confirmed password sends, with the
/// process name free of white space round it. Left out are passwords that a
/// line cannot carry: to a suspension or a resumption an empty one or one that
/// ends in white space, to a change of the block list one that holds a space.
pub proof fn law_sent_requests_are_understood(m: Monitor, key: Key)
    requires
        tidy(m),
        key_step(m, key).1 is Send,
        m.mode.asks_switch_password() ==> m.password.len() > 0 && !text::is_white(
            m.password.last(),
        ),
        m.mode.asks_list_password() ==> !m.password.contains(' '),
    ensures
        ({
            let request = key_step(m, key).1->Send_0;
            admin::request_of(line_of(request)) == match request {
                Request::AddBlock { password, name } => Request::AddBlock {
                    password,
                    name: text::trimmed(name),
                },
                Request::RemoveBlock { password, name } => Request::RemoveBlock {
                    password,
                    name: text::trimmed(name),
                },
                _ => request,
            }
        }),
{
    match key_step(m, key).1->Send_0 {
        Request::Suspend(password) => admin::law_suspend_line_understood(password),
        Request::Resume(password) => admin::law_resume_line_understood(password),
        Request::AddBlock { password, name } => admin::law_add_line_understood(password, name),
        Request::RemoveBlock { password, name } => admin::law_remove_line_understood(
            password,
            name,
        ),
        _ => {},
    }
}

/// The user is given good news exactly where the core service carried the
/// request out.
pub proof fn law_good_news_is_true(
    edition: Edition,
    request: Request,
    suspended: bool,
    verified: bool,
    stored: Result<(), Seq<char>>,
)
    requires
        request.password() is Some,
    ensures
        feedback_on(
            request,
            Ok(admin::outcome_of(edition, request, suspended, verified, stored).reply),
        ).1 == (verified && (request is Suspend || request is Resume || stored is Ok)),
{
    let reply = admin::outcome_of(edition, request, suspended, verified, stored).reply;
    reveal_strlit("OK");
    reveal_strlit("OK\n");
    reveal_strlit("\n");
    reveal_strlit("ERROR: Invalid password\n");
    reveal_strlit("ERROR: Database error: ");
    assert("OK\n"@ =~= "OK"@ + "\n"@);
    text::lemma_trim_white_suffix("OK"@, "\n"@);
    if reply != "OK\n"@ {
        assert(reply[0] == 'E');
        text::lemma_trim_end_solid(text::trim_start(reply));
        text::lemma_trim_start_solid(reply);
        assert(text::trim_start(reply) == reply);
        text::lemma_trimmed_not_empty(reply);
    }
}

/// The state that the core service replies with is the state that the monitor
/// shows, under the name that the tray agent has for it.
pub proof fn law_live_status_is_shown(suspended: bool, events: Seq<LogEntry>)
    ensures
        ({
            let shown = protection(Some(admin::status_reply(suspended)), events);
            &&& shown == (if suspended {
                "SUSPENDED"@
            } else {
                "ACTIVE"@
            })
            &&& translate::status_ru(shown) == (if suspended {
                client::SystemStatus::Suspended.name_ru()
            } else {
                client::SystemStatus::Active.name_ru()
            })
        }),
{
    client::lemma_status_reply_trimmed(suspended);
    client::law_same_names_for_states();
    reveal_strlit("Suspended");
    reveal_strlit("Active");
    reveal_strlit("SUSPENDED");
    reveal_strlit("ACTIVE");
    let state = if suspended {
        "Suspended"@
    } else {
        "Active"@
    };
    assert(text::all_ascii(state));
    assert(casing::ascii_uppercase("Suspended"@) =~= "SUSPENDED"@);
    assert(casing::ascii_uppercase("Active"@) =~= "ACTIVE"@);
}

/// An entry of the event log as the monitor reads it.
pub open spec fn is_record_of(e: LogEntry, entry: AuditEntry) -> bool {
    &&& e.level == entry.level.name()
    &&& e.category == Some(entry.category)
    &&& e.message == Some(entry.message)
}

/// Where the core service cannot be reached, a heartbeat that it logged while
/// suspended makes the monitor show the suspension.
pub proof fn law_suspended_heartbeat_is_seen(events: Seq<LogEntry>, i: int, timestamp: Seq<char>)
    requires
        0 <= i < events.len(),
        is_record_of(events[i], health::beat_entry(true, timestamp)),
    ensures
        protection(None, events) == "SUSPENDED"@,
{
    let m = "System is suspended. Blocking logic inactive."@;
    reveal_strlit("System is suspended. Blocking logic inactive.");
    reveal_strlit("suspended");
    assert(m.subrange(10, 19) =~= "suspended"@);
    assert(text::occurs_at(m, "suspended"@, 10));
    assert(tells_suspension(events[i]));
}

/// The monitor holds the last events that were read, and no more than it
/// shows.
pub proof fn law_latest_are_the_last(events: Seq<LogEntry>)
    ensures
        latest(events).len() == (if events.len() < MAX_EVENTS {
            events.len() as int
        } else {
            MAX_EVENTS as int
        }),
        latest(events) == events.skip(events.len() - latest(events).len()),
{
}

/// Reading a log in two steps comes to the same as reading it at once.
pub proof fn law_reading_in_steps(
    m: Monitor,
    first: Seq<LogEntry>,
    len: u64,
    second: Seq<LogEntry>,
    longer: u64,
)
    requires
        m.offset <= len <= longer,
    ensures
        ({
            let halfway = having_read(reading(m, len), len, first, true);
            having_read(reading(halfway, longer), longer, second, true) == having_read(
                reading(m, longer),
                longer,
                first + second,
                true,
            )
        }),
{
    let a = m.events + first;
    assert(m.events + (first + second) =~= a + second);
    assert(latest(latest(a) + second) =~= latest(a + second));
}

/// Of a log that has become shorter only what is in it now is held.
pub proof fn law_shorter_log_is_read_anew(m: Monitor, file_len: u64, new: Seq<LogEntry>)
    requires
        file_len < m.offset,
    ensures
        reading(m, file_len).offset == 0,
        having_read(reading(m, file_len), file_len, new, true).events == latest(new),
{
    assert(Seq::<LogEntry>::empty() + new =~= new);
}

/// What the user is told stays for its time and is gone after it.
pub proof fn law_feedback_lasts(m: Monitor, feedback: (Seq<char>, bool), now: u64, later: u64)
    requires
        now + FEEDBACK_NANOS <= u64::MAX,
    ensures
        expired(telling(m, feedback, now), later).feedback == (if later <= now + FEEDBACK_NANOS {
            Some(feedback)
        } else {
            None
        }),
{
}

/// A reply tells a state exactly if it begins with the word for it, white space
/// aside; the state is what follows, in capitals.
pub proof fn law_replies_are_read(response: Seq<char>, state: Seq<char>)
    ensures
        live_told(response) is Ok <==> "STATE: "@.is_prefix_of(text::trimmed(response)),
        text::trimmed(response) == "STATE: "@ + state ==> live_told(response) == Ok::<
            Seq<char>,
            Seq<char>,
        >(casing::upper_case(state)),
        live_told(response) matches Err(e) ==> e == "Invalid status response"@,
{
    reveal_strlit("STATE: ");
    let reply = text::trimmed(response);
    if reply == "STATE: "@ + state {
        assert(reply.subrange(0, 7) =~= "STATE: "@);
        assert(reply.skip(7) =~= state);
    }
}

/// The protection is shown as the core service tells it, whatever is logged;
/// where it tells nothing usable, as suspended exactly if some event that was
/// read tells of a suspension under the heading of an override or of the
/// state, and else as active.
pub proof fn law_protection_is_shown(response: Option<Seq<char>>, events: Seq<LogEntry>)
    ensures
        response matches Some(r) ==> (live_told(r) matches Ok(state) ==> protection(
            response,
            events,
        ) == state),
        response is None || live_told(response->0) is Err ==> {
            let logged = exists|i: int|
                {
                    &&& 0 <= i < events.len()
                    &&& (#[trigger] events[i]).category == Some("system_override"@)
                        || events[i].category == Some("system_status"@)
                    &&& events[i].message matches Some(m) && (text::has_part(m, "suspended"@)
                        || text::has_part(m, "Suspended"@))
                };
            &&& logged <==> protection(response, events) == "SUSPENDED"@
            &&& !logged <==> protection(response, events) == "ACTIVE"@
        },
{
    reveal_strlit("SUSPENDED");
    reveal_strlit("ACTIVE");
    assert("SUSPENDED"@.len() == 9 && "ACTIVE"@.len() == 6);
    assert forall|i: int| 0 <= i < events.len() implies (tells_suspension(#[trigger] events[i])
        <==> {
        &&& events[i].category == Some("system_override"@) || events[i].category == Some(
            "system_status"@,
        )
        &&& events[i].message matches Some(m) && (text::has_part(m, "suspended"@)
            || text::has_part(m, "Suspended"@))
    }) by {}
}

/// The lines that are sent hold the word of the command, the password and, for
/// a change of the block list, the process.
pub proof fn law_lines_of_the_commands(password: Seq<char>, name: Seq<char>)
    ensures
        line_of(Request::Suspend(password)) == "SUSPEND "@ + password + "\n"@,
        line_of(Request::Resume(password)) == "RESUME "@ + password + "\n"@,
        line_of(Request::AddBlock { password, name }) == "ADD_BLOCK "@ + password + " "@ + name
            + "\n"@,
        line_of(Request::RemoveBlock { password, name }) == "REMOVE_BLOCK "@ + password + " "@
            + name + "\n"@,
{
}

/// What the user is told of an answer: good news exactly where it is OK, white
/// space aside, and of which command; else the refusal, with its known phrases
/// in Russian, or why there was no answer.
pub proof fn law_answers_are_told(
    request: Request,
    response: Seq<char>,
    error: Seq<char>,
    password: Seq<char>,
    name: Seq<char>,
)
    ensures
        feedback_on(request, Ok(response)).1 <==> text::trimmed(response) == "OK"@,
        feedback_on(request, Err(error)) == ("Ошибка связи: "@ + error, false),
        text::trimmed(response) == "OK"@ ==> {
            &&& feedback_on(Request::Suspend(password), Ok(response)).0
                == "УСПЕШНО: Защита приостановлена."@
            &&& feedback_on(Request::Resume(password), Ok(response)).0
                == "УСПЕШНО: Защита активирована."@
            &&& feedback_on(Request::AddBlock { password, name }, Ok(response)).0
                == "УСПЕШНО: Процесс '"@ + name + "' заблокирован."@
            &&& feedback_on(Request::RemoveBlock { password, name }, Ok(response)).0
                == "УСПЕШНО: Блокировка с '"@ + name + "' снята."@
        },
        text::trimmed(response) != "OK"@ ==> {
            let m = text::replaced(
                text::trimmed(response),
                "Invalid password"@,
                "Неверный пароль"@,
            );
            feedback_on(request, Ok(response)).0 == "ОШИБКА: "@ + (match request {
                Request::AddBlock { .. } => text::replaced(
                    m,
                    "Process already blocked"@,
                    "Процесс уже заблокирован"@,
                ),
                Request::RemoveBlock { .. } => text::replaced(
                    m,
                    "Process not found"@,
                    "Процесс не найден в списке"@,
                ),
                _ => m,
            })
        },
{
}

/// A new monitor of a log knows where that is, and nothing else.
pub proof fn law_new_monitor(path: Seq<char>)
    ensures
        ({
            let m = fresh(path);
            &&& m.path == path
            &&& m.events.len() == 0 && m.offset == 0
            &&& m.core == "UNKNOWN"@ && m.watchdog == "UNKNOWN"@ && m.protection == "UNKNOWN"@
            &&& m.mode == InputMode::Normal
            &&& m.password.len() == 0 && m.process.len() == 0
            &&& m.feedback is None && m.deadline is None
        }),
{
}

/// What the user is told is told for four seconds, as it is, and nothing else
/// changes by that.
pub proof fn law_feedback_is_told(m: Monitor, message: Seq<char>, good: bool, now: u64, later: u64)
    requires
        now + 4_000_000_000 <= u64::MAX,
    ensures
        ({
            let t = telling(m, (message, good), now);
            let e = expired(t, later);
            &&& t.feedback == Some((message, good))
            &&& e.feedback is Some <==> later <= now + 4_000_000_000
            &&& e.feedback is Some ==> e == t
            &&& t == (Monitor { feedback: t.feedback, deadline: t.deadline, ..m })
            &&& e == (Monitor { feedback: e.feedback, deadline: e.deadline, ..m })
        }),
        m.deadline is None ==> expired(m, later) == m,
{
}

/// A log that has grown is read on; one that has become shorter is read anew,
/// and what was read of it before is forgotten. Nothing else changes by that.
pub proof fn law_where_to_read_on(m: Monitor, file_len: u64)
    ensures
        ({
            let r = reading(m, file_len);
            &&& file_len >= m.offset ==> r == m
            &&& file_len < m.offset ==> r.offset == 0 && r.events.len() == 0
            &&& r == (Monitor { offset: r.offset, events: r.events, ..m })
        }),
{
}

/// What was read is held behind what was held before, in its order; read to the
/// end, no more than the last fifty events are held, and it is read on from
/// there. Nothing else changes by that.
pub proof fn law_what_was_read_is_held(
    m: Monitor,
    file_len: u64,
    new: Seq<LogEntry>,
    to_the_end: bool,
)
    ensures
        ({
            let r = having_read(m, file_len, new, to_the_end);
            let all = m.events + new;
            &&& to_the_end ==> r.offset == file_len && r.events.len() == (if all.len() < 50 {
                all.len() as int
            } else {
                50
            })
            &&& !to_the_end ==> r.offset == m.offset && r.events.len() == all.len()
            &&& forall|i: int|
                0 <= i < r.events.len() ==> #[trigger] r.events[i] == all[all.len() - r.events.len()
                    + i]
            &&& r == (Monitor { offset: r.offset, events: r.events, ..m })
        }),
{
}

/// A letter is added to what is asked for, and to nothing else; Backspace takes
/// the last one away, where there is one.
pub proof fn law_letters_are_entered(m: Monitor, c: char)
    requires
        m.mode != InputMode::Normal,
    ensures
        ({
            let names = m.mode == InputMode::PromptingAddBlockName || m.mode
                == InputMode::PromptingRemoveBlockName;
            let typed = key_step(m, Key::Char(c)).0;
            let deleted = key_step(m, Key::Backspace).0;
            let shorter = |s: Seq<char>|
                if s.len() > 0 {
                    s.take(s.len() - 1)
                } else {
                    s
                };
            &&& names ==> typed == (Monitor { process: m.process + seq![c], ..m })
            &&& !names ==> typed == (Monitor { password: m.password + seq![c], ..m })
            &&& names ==> deleted == (Monitor { process: shorter(m.process), ..m })
            &&& !names ==> deleted == (Monitor { password: shorter(m.password), ..m })
            &&& key_step(m, Key::Char(c)).1 is Stay && key_step(m, Key::Backspace).1 is Stay
            &&& key_step(m, Key::Other) == (m, KeyOutcome::Stay)
        }),
{
    assert(m.process.push(c) =~= m.process + seq![c]);
    assert(m.password.push(c) =~= m.password + seq![c]);
    if m.process.len() > 0 {
        assert(m.process.drop_last() =~= m.process.take(m.process.len() - 1));
    }
    if m.password.len() > 0 {
        assert(m.password.drop_last() =~= m.password.take(m.password.len() - 1));
    }
}

/// While nothing is asked for, the digits from one to four ask for a suspension,
/// a resumption, a process to block and a process to unblock, with nothing
/// entered yet and nothing told any more; any other key but `q` does nothing.
pub proof fn law_keys_ask(m: Monitor, key: Key)
    requires
        m.mode == InputMode::Normal,
    ensures
        ({
            let r = key_step(m, key).0;
            let asks = key == Key::Char('1') || key == Key::Char('2') || key == Key::Char('3')
                || key == Key::Char('4');
            &&& r.mode == InputMode::PromptingSuspend <==> key == Key::Char('1')
            &&& r.mode == InputMode::PromptingResume <==> key == Key::Char('2')
            &&& r.mode == InputMode::PromptingAddBlockName <==> key == Key::Char('3')
            &&& r.mode == InputMode::PromptingRemoveBlockName <==> key == Key::Char('4')
            &&& asks ==> r.password.len() == 0 && r.feedback is None
            &&& key == Key::Char('3') || key == Key::Char('4') ==> r.process.len() == 0
            &&& !asks ==> r == m
            &&& r == (Monitor {
                mode: r.mode,
                password: r.password,
                process: r.process,
                feedback: r.feedback,
                ..m
            })
            &&& key_step(m, key).1 is Quit <==> key == Key::Char('q')
            &&& !(key_step(m, key).1 is Send)
        }),
{
}

/// Enter sends a request exactly where a password is asked for: the one that was
/// asked for, with the password and the process as they were entered. A name
/// leads on to its password, unless there is nothing but white space in it.
pub proof fn law_enter_confirms(m: Monitor)
    requires
        m.mode != InputMode::Normal,
    ensures
        ({
            let (r, action) = key_step(m, Key::Enter);
            match m.mode {
                InputMode::PromptingSuspend => action == KeyOutcome::Send(
                    Request::Suspend(m.password),
                ),
                InputMode::PromptingResume => action == KeyOutcome::Send(
                    Request::Resume(m.password),
                ),
                InputMode::PromptingAddBlockPassword => action == KeyOutcome::Send(
                    Request::AddBlock { password: m.password, name: m.process },
                ),
                InputMode::PromptingRemoveBlockPassword => action == KeyOutcome::Send(
                    Request::RemoveBlock { password: m.password, name: m.process },
                ),
                InputMode::PromptingAddBlockName => action is Stay && r == (Monitor {
                    mode: if text::trimmed(m.process).len() > 0 {
                        InputMode::PromptingAddBlockPassword
                    } else {
                        m.mode
                    },
                    ..m
                }),
                InputMode::PromptingRemoveBlockName => action is Stay && r == (Monitor {
                    mode: if text::trimmed(m.process).len() > 0 {
                        InputMode::PromptingRemoveBlockPassword
                    } else {
                        m.mode
                    },
                    ..m
                }),
                InputMode::Normal => true,
            }
        }),
        key_step(m, Key::Enter).1 is Send ==> {
            let r = key_step(m, Key::Enter).0;
            r.mode == InputMode::Normal && r.password.len() == 0 && r == (Monitor {
                mode: r.mode,
                password: r.password,
                process: r.process,
                ..m
            })
        },
        ({
            let r = key_step(m, Key::Esc).0;
            r.mode == InputMode::Normal && r == (Monitor {
                mode: r.mode,
                password: r.password,
                process: r.process,
                ..m
            })
        }),
{
}

/// What is known of an event by its texts is what stands in it, and no event is
/// lost.
pub proof fn law_events_are_seen_whole(events: Seq<TracingEvent>, i: int)
    requires
        0 <= i < events.len(),
    ensures
        entries(events).len() == events.len(),
        entries(events)[i].timestamp == events[i].timestamp@,
        entries(events)[i].level == events[i].level@,
        entries(events)[i].category == (match events[i].fields.category {
            Some(c) => Some(c@),
            None => None,
        }),
        entries(events)[i].message == (match events[i].fields.message {
            Some(m) => Some(m@),
            None => None,
        }),
{
}

/// What is known of a command by its texts is what stands in it.
pub proof fn law_commands_are_seen_whole(command: Command, action: KeyAction)
    ensures
        command matches Command::Suspend { password } ==> command@ == Request::Suspend(password@),
        command matches Command::Resume { password } ==> command@ == Request::Resume(password@),
        command matches Command::AddBlock { password, process } ==> command@ == (
        Request::AddBlock { password: password@, name: process@ }),
        command matches Command::RemoveBlock { password, process } ==> command@ == (
        Request::RemoveBlock { password: password@, name: process@ }),
        action is Stay <==> action@ is Stay,
        action is Quit <==> action@ is Quit,
        action matches KeyAction::Send(c) ==> action@ == KeyOutcome::Send(c@),
{
}

} // verus!
