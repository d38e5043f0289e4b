//! What the monitor shows.

use vstd::prelude::*;

use crate::audit::Level;
use crate::monitor::AppState;
use crate::monitor::InputMode;
use crate::monitor::LogEntry;
use crate::monitor::Monitor;
use crate::monitor::TracingEvent;
use crate::numbers;
use crate::numbers::decimal_text;
use crate::scm;
use crate::service;
use crate::text::chars_of;
use crate::text::join3;
use crate::text::same;
use crate::timestamps;
use crate::timestamps::format_timestamp;
use crate::translate;
use crate::translate::translate_event;
use crate::translate::translate_status;

verus! {

/// A colour of the terminal.
#[derive(Debug, Clone, Copy, PartialEq, Eq, Structural)]
pub enum Colour {
    Green,
    Red,
    Yellow,
    White,
    DarkGray,
}

// ---------------------------------------------------------------------------
// The status bar
// ---------------------------------------------------------------------------

/// The colour of a service's state.
pub open spec fn service_colour(status: Seq<char>) -> Colour {
    if status == "RUNNING"@ {
        Colour::Green
    } else if status == "NOT INSTALLED"@ {
        Colour::DarkGray
    } else {
        Colour::Red
    }
}

fn colour_of_service(status: &str) -> (r: Colour)
    ensures
        r == service_colour(status@),
{
    if same(status, "RUNNING") {
        Colour::Green
    } else if same(status, "NOT INSTALLED") {
        Colour::DarkGray
    } else {
        Colour::Red
    }
}

/// The colour of the protection's state.
pub open spec fn protection_colour(status: Seq<char>) -> Colour {
    if status == "ACTIVE"@ {
        Colour::Green
    } else if status == "SUSPENDED"@ {
        Colour::Red
    } else {
        Colour::Yellow
    }
}

fn colour_of_protection(status: &str) -> (r: Colour)
    ensures
        r == protection_colour(status@),
{
    if same(status, "ACTIVE") {
        Colour::Green
    } else if same(status, "SUSPENDED") {
        Colour::Red
    } else {
        Colour::Yellow
    }
}

/// A text in a colour.
#[derive(Debug)]
pub struct Coloured {
    pub text: String,
    pub colour: Colour,
}

/// A text in a colour, by its text.
pub struct Tinted {
    pub text: Seq<char>,
    pub colour: Colour,
}

impl View for Coloured {
    type V = Tinted;

    open spec fn view(&self) -> Tinted {
        Tinted { text: self.text@, colour: self.colour }
    }
}

/// The state of a service in Russian, in its colour.
pub open spec fn service_shown(status: Seq<char>) -> Tinted {
    Tinted { text: translate::status_ru(status), colour: service_colour(status) }
}

/// The state of the protection in Russian, in its colour.
pub open spec fn protection_shown(status: Seq<char>) -> Tinted {
    Tinted { text: translate::status_ru(status), colour: protection_colour(status) }
}

/// What the user is told, in brackets and in the colour of good or bad news.
pub open spec fn feedback_shown(feedback: Option<(Seq<char>, bool)>) -> Option<Tinted> {
    match feedback {
        Some((message, good)) => Some(
            Tinted {
                text: "   [ "@ + message + " ]"@,
                colour: if good {
                    Colour::Green
                } else {
                    Colour::Red
                },
            },
        ),
        None => None,
    }
}

/// A size of `n` bytes in tenths of a kilobyte, to the nearest, and to the
/// even one of two that are as near.
pub open spec fn kilobyte_tenths(n: int) -> int {
    let below = 10 * n / 1024;
    let rest = 10 * n % 1024;
    if rest > 512 || rest == 512 && below % 2 == 1 {
        below + 1
    } else {
        below
    }
}

/// A size of `n` bytes in kilobytes, with one digit behind the point.
pub open spec fn kilobytes(n: int) -> Seq<char> {
    numbers::decimal((kilobyte_tenths(n) / 10) as nat) + "."@ + numbers::decimal(
        (kilobyte_tenths(n) % 10) as nat,
    )
}

/// The largest size, in bytes, up to which a double-precision number of
/// kilobytes is exact; up to there the text of such a number is the text below.
pub const MAX_EXACT_SIZE: u64 = 9_007_199_254_740_992;

/// A size of `n` bytes in kilobytes, with one digit behind the point.
pub fn size_text(n: u64) -> (r: String)
    requires
        n <= MAX_EXACT_SIZE,
    ensures
        r@ == kilobytes(n as int),
{
    let below: u64 = 10 * n / 1024;
    let rest: u64 = 10 * n % 1024;
    let tenths: u64 = if rest > 512 || rest == 512 && below % 2 == 1 {
        below + 1
    } else {
        below
    };
    let whole = decimal_text(tenths / 10);
    let part = decimal_text(tenths % 10);
    join3(whole.as_str(), ".", part.as_str())
}

// ---------------------------------------------------------------------------
// The table of events
// ---------------------------------------------------------------------------

/// The colour of a level.
pub open spec fn level_colour(level: Seq<char>) -> Colour {
    if level == "ERROR"@ || level == "FATAL"@ {
        Colour::Red
    } else if level == "WARN"@ {
        Colour::Yellow
    } else if level == "INFO"@ {
        Colour::Green
    } else {
        Colour::White
    }
}

/// The Russian name of a level; a level without one keeps its own name.
pub open spec fn level_ru(level: Seq<char>) -> Seq<char> {
    if level == "ERROR"@ || level == "FATAL"@ {
        "ОШИБКА"@
    } else if level == "WARN"@ {
        "ПРЕДУПР"@
    } else if level == "INFO"@ {
        "ИНФО"@
    } else {
        level
    }
}

fn level_shown(level: &str) -> (r: Coloured)
    ensures
        r@ == (Tinted { text: level_ru(level@), colour: level_colour(level@) }),
{
    let (name, colour) = if same(level, "ERROR") || same(level, "FATAL") {
        ("ОШИБКА", Colour::Red)
    } else if same(level, "WARN") {
        ("ПРЕДУПР", Colour::Yellow)
    } else if same(level, "INFO") {
        ("ИНФО", Colour::Green)
    } else {
        (level, Colour::White)
    };
    Coloured { text: name.to_owned(), colour }
}

/// A line of the table of events.
#[derive(Debug)]
pub struct EventRow {
    pub time: String,
    pub level: Coloured,
    pub category: String,
    pub message: String,
}

/// A line of the table of events, by its texts.
pub struct ShownRow {
    pub time: Seq<char>,
    pub level: Tinted,
    pub category: Seq<char>,
    pub message: Seq<char>,
}

impl View for EventRow {
    type V = ShownRow;

    open spec fn view(&self) -> ShownRow {
        ShownRow {
            time: self.time@,
            level: self.level@,
            category: self.category@,
            message: self.message@,
        }
    }
}

/// How an event is shown where clocks are `offset` seconds ahead of UTC.
pub open spec fn row_of(e: LogEntry, offset: int) -> ShownRow {
    let category = match e.category {
        Some(c) => c,
        None => "default"@,
    };
    let message = match e.message {
        Some(m) => m,
        None => ""@,
    };
    ShownRow {
        time: timestamps::shown_time(e.timestamp, offset),
        level: Tinted { text: level_ru(e.level), colour: level_colour(e.level) },
        category: translate::category_ru(category),
        message: translate::message_ru(category, message),
    }
}

/// How an event is shown where clocks are `offset` seconds ahead of UTC.
pub fn event_row(e: &TracingEvent, offset: i32) -> (r: EventRow)
    requires
        -86400 < offset < 86400,
    ensures
        r@ == row_of(e@, offset as int),
{
    let category = match &e.fields.category {
        Some(c) => c.as_str(),
        None => "default",
    };
    let message = match &e.fields.message {
        Some(m) => m.as_str(),
        None => "",
    };
    let (category_ru, message_ru) = translate_event(category, message);
    EventRow {
        time: format_timestamp(e.timestamp.as_str(), offset),
        level: level_shown(e.level.as_str()),
        category: category_ru,
        message: message_ru,
    }
}

// ---------------------------------------------------------------------------
// The dialog
// ---------------------------------------------------------------------------

/// As many asterisks as the text has bytes in UTF-8.
pub open spec fn masked(s: Seq<char>) -> Seq<char> {
    Seq::new(vstd::utf8::encode_utf8(s).len(), |i: int| '*')
}

/// As many asterisks as the text has bytes in UTF-8.
pub fn mask(s: &str) -> (r: String)
    ensures
        r@ == masked(s@),
{
    let chars = chars_of(s);
    let mut r = String::new();
    let mut i: usize = 0;
    let ghost bytes = vstd::utf8::encode_utf8(s@).len();
    assert(s@.skip(0) =~= s@);
    while i < chars.len()
        invariant
            chars@ == s@,
            i <= chars.len(),
            bytes == r@.len() + vstd::utf8::encode_utf8(s@.skip(i as int)).len(),
            forall|j: int| 0 <= j < r@.len() ==> #[trigger] r@[j] == '*',
        decreases chars.len() - i,
    {
        let c: char = chars[i];
        proof {
            vstd::utf8::char_is_scalar(c);
        }
        let n: u32 = c as u32;
        r.push('*');
        if n >= 0x80 {
            r.push('*');
        }
        if n >= 0x800 {
            r.push('*');
        }
        if n >= 0x10000 {
            r.push('*');
        }
        assert(s@.skip(i as int)[0] == c);
        assert(s@.skip(i as int).drop_first() =~= s@.skip(i + 1));
        i = i + 1;
    }
    assert(r@ =~= masked(s@));
    r
}

/// A dialog that asks for something.
#[derive(Debug)]
pub struct Prompt {
    pub title: String,
    pub label: String,
    pub input: String,
}

/// A dialog that asks for something, by its texts.
pub struct ShownPrompt {
    pub title: Seq<char>,
    pub label: Seq<char>,
    pub input: Seq<char>,
}

impl View for Prompt {
    type V = ShownPrompt;

    open spec fn view(&self) -> ShownPrompt {
        ShownPrompt { title: self.title@, label: self.label@, input: self.input@ }
    }
}

/// The title of the dialog.
pub open spec fn title_of(mode: InputMode) -> Seq<char> {
    match mode {
        InputMode::Normal => ""@,
        InputMode::PromptingSuspend => " ДЕЙСТВИЕ: ПРИОСТАНОВКА ЗАЩИТЫ "@,
        InputMode::PromptingResume => " ДЕЙСТВИЕ: АКТИВАЦИЯ ЗАЩИТЫ "@,
        InputMode::PromptingAddBlockName => " ДЕЙСТВИЕ: БЛОКИРОВКА ПРОЦЕССА "@,
        InputMode::PromptingAddBlockPassword => " ДЕЙСТВИЕ: БЛОКИРОВКА ПРОЦЕССА "@,
        InputMode::PromptingRemoveBlockName => " ДЕЙСТВИЕ: СНЯТИЕ БЛОКИРОВКИ "@,
        InputMode::PromptingRemoveBlockPassword => " ДЕЙСТВИЕ: СНЯТИЕ БЛОКИРОВКИ "@,
    }
}

/// What the dialog asks for.
pub open spec fn label_of(mode: InputMode, process: Seq<char>) -> Seq<char> {
    match mode {
        InputMode::Normal => ""@,
        InputMode::PromptingSuspend =>
            "Введите Мастер-Пароль для подтверждения приостановки защиты:"@,
        InputMode::PromptingResume =>
            "Введите Мастер-Пароль для подтверждения активации защиты:"@,
        InputMode::PromptingAddBlockName =>
            "Введите имя исполняемого файла для блокировки (например, game.exe):"@,
        InputMode::PromptingAddBlockPassword => "Блокировка '"@ + process
            + "'. Введите Мастер-Пароль:"@,
        InputMode::PromptingRemoveBlockName =>
            "Введите имя исполняемого файла для разблокировки (например, game.exe):"@,
        InputMode::PromptingRemoveBlockPassword => "Разблокировка '"@ + process
            + "'. Введите Мастер-Пароль:"@,
    }
}

/// The dialog that is shown, if any: a name as it is entered, a password as
/// asterisks.
pub open spec fn prompt_shown(m: Monitor) -> Option<ShownPrompt> {
    if m.mode == InputMode::Normal {
        None
    } else {
        Some(
            ShownPrompt {
                title: title_of(m.mode),
                label: label_of(m.mode, m.process),
                input: if m.mode.asks_name() {
                    m.process
                } else {
                    masked(m.password)
                },
            },
        )
    }
}

fn title(mode: InputMode) -> (r: &'static str)
    ensures
        r@ == title_of(mode),
{
    match mode {
        InputMode::Normal => "",
        InputMode::PromptingSuspend => " ДЕЙСТВИЕ: ПРИОСТАНОВКА ЗАЩИТЫ ",
        InputMode::PromptingResume => " ДЕЙСТВИЕ: АКТИВАЦИЯ ЗАЩИТЫ ",
        InputMode::PromptingAddBlockName => " ДЕЙСТВИЕ: БЛОКИРОВКА ПРОЦЕССА ",
        InputMode::PromptingAddBlockPassword => " ДЕЙСТВИЕ: БЛОКИРОВКА ПРОЦЕССА ",
        InputMode::PromptingRemoveBlockName => " ДЕЙСТВИЕ: СНЯТИЕ БЛОКИРОВКИ ",
        InputMode::PromptingRemoveBlockPassword => " ДЕЙСТВИЕ: СНЯТИЕ БЛОКИРОВКИ ",
    }
}

fn label(mode: InputMode, process: &str) -> (r: String)
    ensures
        r@ == label_of(mode, process@),
{
    match mode {
        InputMode::Normal => "".to_owned(),
        InputMode::PromptingSuspend =>
            "Введите Мастер-Пароль для подтверждения приостановки защиты:".to_owned(),
        InputMode::PromptingResume =>
            "Введите Мастер-Пароль для подтверждения активации защиты:".to_owned(),
        InputMode::PromptingAddBlockName =>
            "Введите имя исполняемого файла для блокировки (например, game.exe):".to_owned(),
        InputMode::PromptingAddBlockPassword => join3(
            "Блокировка '",
            process,
            "'. Введите Мастер-Пароль:",
        ),
        InputMode::PromptingRemoveBlockName =>
            "Введите имя исполняемого файла для разблокировки (например, game.exe):".to_owned(),
        InputMode::PromptingRemoveBlockPassword => join3(
            "Разблокировка '",
            process,
            "'. Введите Мастер-Пароль:",
        ),
    }
}

// ---------------------------------------------------------------------------
// The monitor
// ---------------------------------------------------------------------------

/// The dialog that is shown, if any.
pub fn prompt(state: &AppState) -> (r: Option<Prompt>)
    ensures
        match r {
            Some(p) => prompt_shown(state@) == Some(p@),
            None => prompt_shown(state@) is None,
        },
{
    let mode = state.input_mode();
    if mode == InputMode::Normal {
        return None;
    }
    let input = if mode.takes_name() {
        state.process_input().to_owned()
    } else {
        mask(state.password_input())
    };
    Some(
        Prompt {
            title: title(mode).to_owned(),
            label: label(mode, state.process_input()),
            input,
        },
    )
}

/// The status bar.
#[derive(Debug)]
pub struct StatusBar {
    pub core: Coloured,
    pub watchdog: Coloured,
    pub protection: Coloured,
    pub feedback: Option<Coloured>,
}

/// The status bar.
pub fn status_bar(state: &AppState) -> (r: StatusBar)
    ensures
        r.core@ == service_shown(state@.core),
        r.watchdog@ == service_shown(state@.watchdog),
        r.protection@ == protection_shown(state@.protection),
        match r.feedback {
            Some(f) => feedback_shown(state@.feedback) == Some(f@),
            None => feedback_shown(state@.feedback) is None,
        },
{
    let feedback = match state.feedback_message() {
        Some((message, good)) => Some(
            Coloured {
                text: join3("   [ ", message, " ]"),
                colour: if good {
                    Colour::Green
                } else {
                    Colour::Red
                },
            },
        ),
        None => None,
    };
    StatusBar {
        core: Coloured {
            text: translate_status(state.core_status()),
            colour: colour_of_service(state.core_status()),
        },
        watchdog: Coloured {
            text: translate_status(state.watchdog_status()),
            colour: colour_of_service(state.watchdog_status()),
        },
        protection: Coloured {
            text: translate_status(state.suspended_status()),
            colour: colour_of_protection(state.suspended_status()),
        },
        feedback,
    }
}

// ---------------------------------------------------------------------------
// Laws
// ---------------------------------------------------------------------------

/// Of a password no more is shown than how long it is.
pub proof fn law_passwords_are_not_shown(m: Monitor, password: Seq<char>)
    requires
        vstd::utf8::encode_utf8(password).len() == vstd::utf8::encode_utf8(m.password).len(),
    ensures
        prompt_shown(Monitor { password, ..m }) == prompt_shown(m),
{
}

/// The size that is shown is off by no more than half of its last digit.
pub proof fn law_size_is_nearest(n: int)
    requires
        n >= 0,
    ensures
        -512 <= 1024 * kilobyte_tenths(n) - 10 * n <= 512,
        1024 * kilobyte_tenths(n) - 10 * n == 512 || 1024 * kilobyte_tenths(n) - 10 * n == -512
            ==> kilobyte_tenths(n) % 2 == 0,
{
}

/// Of the states that Windows reports of a service, only that of running is
/// shown in green.
pub proof fn law_only_running_is_green(state: u32)
    ensures
        service_colour(scm::state_name(state)) == Colour::Green <==> state
            == service::SERVICE_RUNNING,
{
    reveal_strlit("RUNNING");
    reveal_strlit("STOPPED");
    reveal_strlit("PAUSED");
    reveal_strlit("STARTING");
    reveal_strlit("STOPPING");
    reveal_strlit("STATE (");
    reveal_strlit("NOT INSTALLED");
    assert("RUNNING"@[0] == 'R');
    assert("NOT INSTALLED"@[0] == 'N');
    assert("STOPPED"@[0] == 'S');
    assert("PAUSED"@[0] == 'P');
    assert("STARTING"@[0] == 'S');
    assert("STOPPING"@[0] == 'S');
    assert("STATE ("@[0] == 'S');
    assert(("STATE ("@ + numbers::decimal(state as nat) + ")"@)[0] == 'S');
}

/// Every level that is logged has a Russian name and a colour of its own.
pub proof fn law_levels_look_different(a: Level, b: Level)
    ensures
        a != b ==> level_colour(a.name()) != level_colour(b.name()),
        a != b ==> level_ru(a.name()) != level_ru(b.name()),
{
    reveal_strlit("ERROR");
    reveal_strlit("FATAL");
    reveal_strlit("WARN");
    reveal_strlit("INFO");
    reveal_strlit("ОШИБКА");
    reveal_strlit("ПРЕДУПР");
    reveal_strlit("ИНФО");
    assert("ERROR"@[0] == 'E');
    assert("FATAL"@[0] == 'F');
    assert("WARN"@[0] == 'W' && "WARN"@.len() == 4);
    assert("INFO"@[0] == 'I' && "INFO"@.len() == 4);
    assert("ОШИБКА"@[0] == 'О' && "ПРЕДУПР"@[0] == 'П' && "ИНФО"@[0] == 'И');
}

/// A state of a service is green exactly if it runs and grey exactly if it is
/// not installed, and red otherwise; it is called by its Russian name.
pub proof fn law_services_are_shown(status: Seq<char>)
    ensures
        service_shown(status).colour == Colour::Green <==> status == "RUNNING"@,
        service_shown(status).colour == Colour::DarkGray <==> status == "NOT INSTALLED"@,
        service_shown(status).colour == Colour::Red <==> status != "RUNNING"@ && status
            != "NOT INSTALLED"@,
        service_shown(status).text == translate::status_ru(status),
{
    reveal_strlit("RUNNING");
    reveal_strlit("NOT INSTALLED");
    assert("RUNNING"@.len() == 7 && "NOT INSTALLED"@.len() == 13);
}

/// The protection is green exactly if it is active and red exactly if it is
/// suspended, and yellow otherwise; it is called by its Russian name.
pub proof fn law_protection_is_coloured(status: Seq<char>)
    ensures
        protection_shown(status).colour == Colour::Green <==> status == "ACTIVE"@,
        protection_shown(status).colour == Colour::Red <==> status == "SUSPENDED"@,
        protection_shown(status).colour == Colour::Yellow <==> status != "ACTIVE"@ && status
            != "SUSPENDED"@,
        protection_shown(status).text == translate::status_ru(status),
{
    reveal_strlit("ACTIVE");
    reveal_strlit("SUSPENDED");
    assert("ACTIVE"@.len() == 6 && "SUSPENDED"@.len() == 9);
}

/// Good news is green and bad news red, and both are shown as they are told.
pub proof fn law_news_is_shown(message: Seq<char>, good: bool)
    ensures
        feedback_shown(None) is None,
        feedback_shown(Some((message, good))) matches Some(t) && t.text == "   [ "@ + message
            + " ]"@ && t.colour == (if good {
            Colour::Green
        } else {
            Colour::Red
        }),
{
}

/// Levels by their names and colours.
pub proof fn law_levels_are_shown(level: Seq<char>)
    ensures
        level_colour(level) == Colour::Red <==> level == "ERROR"@ || level == "FATAL"@,
        level_colour(level) == Colour::Yellow <==> level == "WARN"@,
        level_colour(level) == Colour::Green <==> level == "INFO"@,
        level_colour(level) != Colour::DarkGray,
        level_ru(level) == (match level_colour(level) {
            Colour::Red => "ОШИБКА"@,
            Colour::Yellow => "ПРЕДУПР"@,
            Colour::Green => "ИНФО"@,
            _ => level,
        }),
{
    reveal_strlit("ERROR");
    reveal_strlit("FATAL");
    reveal_strlit("WARN");
    reveal_strlit("INFO");
    assert("ERROR"@[0] == 'E' && "FATAL"@[0] == 'F' && "WARN"@[0] == 'W' && "INFO"@[0] == 'I');
}

/// A row of the table tells of an event its time, its level, its heading and its
/// message; one without a category is shown as any other, and one without a
/// message without one.
pub proof fn law_rows_tell_the_events(e: LogEntry, offset: int)
    ensures
        row_of(e, offset).time == timestamps::shown_time(e.timestamp, offset),
        row_of(e, offset).level.text == level_ru(e.level),
        row_of(e, offset).level.colour == level_colour(e.level),
        e.category matches Some(c) ==> row_of(e, offset).category == translate::category_ru(c)
            && row_of(e, offset).message == translate::message_ru(
            c,
            match e.message {
                Some(m) => m,
                None => Seq::empty(),
            },
        ),
        e.category is None ==> row_of(e, offset).category == "Общее"@,
        e.category is None ==> row_of(e, offset).message == translate::other_message_ru(
            match e.message {
                Some(m) => m,
                None => Seq::empty(),
            },
        ),
{
    reveal_strlit("");
    assert(""@ =~= Seq::<char>::empty());
    reveal_strlit("default");
    reveal_strlit("process_blocked");
    reveal_strlit("system_override");
    reveal_strlit("system_status");
    reveal_strlit("watchdog_event");
    reveal_strlit("process_lifecycle");
    reveal_strlit("ipc_command");
    reveal_strlit("admin_action");
    reveal_strlit("ipc");
    reveal_strlit("db");
    reveal_strlit("database");
    assert("default"@.len() == 7 && "process_blocked"@.len() == 15
        && "system_override"@.len() == 15 && "system_status"@.len() == 13
        && "watchdog_event"@.len() == 14 && "process_lifecycle"@.len() == 17
        && "ipc_command"@.len() == 11 && "admin_action"@.len() == 12 && "ipc"@.len() == 3
        && "db"@.len() == 2 && "database"@.len() == 8);
}

/// A dialog is shown exactly while something is asked for: a name as it is
/// entered, a password as asterisks, one for each of its bytes.
pub proof fn law_prompts_are_shown(m: Monitor)
    ensures
        prompt_shown(m) is None <==> m.mode == InputMode::Normal,
        prompt_shown(m) matches Some(p) ==> {
            let names = m.mode == InputMode::PromptingAddBlockName || m.mode
                == InputMode::PromptingRemoveBlockName;
            &&& names ==> p.input == m.process
            &&& !names ==> p.input.len() == vstd::utf8::encode_utf8(m.password).len() && forall|
                i: int,
            |
                0 <= i < p.input.len() ==> #[trigger] p.input[i] == '*'
        },
        prompt_shown(m) matches Some(p) ==> match m.mode {
            InputMode::Normal => true,
            InputMode::PromptingSuspend => p.title == " ДЕЙСТВИЕ: ПРИОСТАНОВКА ЗАЩИТЫ "@
                && p.label == "Введите Мастер-Пароль для подтверждения приостановки защиты:"@,
            InputMode::PromptingResume => p.title == " ДЕЙСТВИЕ: АКТИВАЦИЯ ЗАЩИТЫ "@ && p.label
                == "Введите Мастер-Пароль для подтверждения активации защиты:"@,
            InputMode::PromptingAddBlockName => p.title == " ДЕЙСТВИЕ: БЛОКИРОВКА ПРОЦЕССА "@
                && p.label
                == "Введите имя исполняемого файла для блокировки (например, game.exe):"@,
            InputMode::PromptingAddBlockPassword => p.title == " ДЕЙСТВИЕ: БЛОКИРОВКА ПРОЦЕССА "@
                && p.label == "Блокировка '"@ + m.process + "'. Введите Мастер-Пароль:"@,
            InputMode::PromptingRemoveBlockName => p.title == " ДЕЙСТВИЕ: СНЯТИЕ БЛОКИРОВКИ "@
                && p.label
                == "Введите имя исполняемого файла для разблокировки (например, game.exe):"@,
            InputMode::PromptingRemoveBlockPassword => p.title == " ДЕЙСТВИЕ: СНЯТИЕ БЛОКИРОВКИ "@
                && p.label == "Разблокировка '"@ + m.process + "'. Введите Мастер-Пароль:"@,
        },
{
}

/// A size is shown in kilobytes with one digit behind the point: the tenths of a
/// kilobyte that are nearest, in decimal.
pub proof fn law_size_is_shown(n: int)
    requires
        0 <= n,
    ensures
        exists|tenths: int|
            {
                &&& -512 <= 1024 * tenths - 10 * n <= 512
                &&& 1024 * tenths - 10 * n == 512 || 1024 * tenths - 10 * n == -512 ==> tenths % 2
                    == 0
                &&& kilobytes(n) == numbers::decimal((tenths / 10) as nat) + "."@ + #[trigger]
                    numbers::decimal((tenths % 10) as nat)
            },
{
    let tenths = kilobyte_tenths(n);
    assert(kilobytes(n) == numbers::decimal((tenths / 10) as nat) + "."@ + numbers::decimal(
        (tenths % 10) as nat,
    ));
}

/// What is known of what is shown by its texts is what stands in it.
pub proof fn law_rows_are_seen_whole(row: EventRow, prompt: Prompt, text: Coloured)
    ensures
        text@.text == text.text@,
        text@.colour == text.colour,
        row@.time == row.time@,
        row@.level.text == row.level.text@,
        row@.level.colour == row.level.colour,
        row@.category == row.category@,
        row@.message == row.message@,
        prompt@.title == prompt.title@,
        prompt@.label == prompt.label@,
        prompt@.input == prompt.input@,
{
}

/// A masked text is nothing but asterisks, one for each of its bytes.
pub proof fn law_masked_text(s: Seq<char>)
    ensures
        masked(s).len() == vstd::utf8::encode_utf8(s).len(),
        forall|i: int| 0 <= i < masked(s).len() ==> #[trigger] masked(s)[i] == '*',
{
}

} // verus!
