//! The Russian wording of service states and of logged events.

use vstd::prelude::*;

use crate::text;
use crate::text::contains;
use crate::text::join2;
use crate::text::replace;
use crate::text::same;
use crate::text::strip_prefix;
use crate::text::text_after;

verus! {

// ---------------------------------------------------------------------------
// Service states
// ---------------------------------------------------------------------------

/// The Russian name of a state; a state without one keeps its own name.
pub open spec fn status_ru(status: Seq<char>) -> Seq<char> {
    if status == "RUNNING"@ {
        "ЗАПУЩЕНО"@
    } else if status == "STOPPED"@ {
        "ОСТАНОВЛЕНО"@
    } else if status == "NOT INSTALLED"@ {
        "НЕ УСТАНОВЛЕНА"@
    } else if status == "STARTING"@ {
        "ЗАПУСКАЕТСЯ"@
    } else if status == "STOPPING"@ {
        "ОСТАНАВЛИВАЕТСЯ"@
    } else if status == "PAUSED"@ {
        "ПАУЗА"@
    } else if status == "ACTIVE"@ {
        "АКТИВЕН"@
    } else if status == "SUSPENDED"@ {
        "ПРИОСТАНОВЛЕН"@
    } else {
        status
    }
}

/// The states with a Russian name are different texts.
pub proof fn lemma_states_differ()
    ensures
        status_ru("RUNNING"@) == "ЗАПУЩЕНО"@,
        status_ru("STOPPED"@) == "ОСТАНОВЛЕНО"@,
        status_ru("NOT INSTALLED"@) == "НЕ УСТАНОВЛЕНА"@,
        status_ru("STARTING"@) == "ЗАПУСКАЕТСЯ"@,
        status_ru("STOPPING"@) == "ОСТАНАВЛИВАЕТСЯ"@,
        status_ru("PAUSED"@) == "ПАУЗА"@,
        status_ru("ACTIVE"@) == "АКТИВЕН"@,
        status_ru("SUSPENDED"@) == "ПРИОСТАНОВЛЕН"@,
{
    reveal_strlit("RUNNING");
    reveal_strlit("STOPPED");
    reveal_strlit("NOT INSTALLED");
    reveal_strlit("STARTING");
    reveal_strlit("STOPPING");
    reveal_strlit("PAUSED");
    reveal_strlit("ACTIVE");
    reveal_strlit("SUSPENDED");
    assert("RUNNING"@.len() == 7 && "RUNNING"@[0] == 'R');
    assert("STOPPED"@.len() == 7 && "STOPPED"@[0] == 'S');
    assert("NOT INSTALLED"@.len() == 13);
    assert("STARTING"@.len() == 8 && "STARTING"@[2] == 'A');
    assert("STOPPING"@.len() == 8 && "STOPPING"@[2] == 'O');
    assert("PAUSED"@.len() == 6 && "PAUSED"@[0] == 'P');
    assert("ACTIVE"@.len() == 6 && "ACTIVE"@[0] == 'A');
    assert("SUSPENDED"@.len() == 9);
}

/// The Russian name of a state; a state without one keeps its own name.
pub fn translate_status(status: &str) -> (r: String)
    ensures
        r@ == status_ru(status@),
{
    let name = if same(status, "RUNNING") {
        "ЗАПУЩЕНО"
    } else if same(status, "STOPPED") {
        "ОСТАНОВЛЕНО"
    } else if same(status, "NOT INSTALLED") {
        "НЕ УСТАНОВЛЕНА"
    } else if same(status, "STARTING") {
        "ЗАПУСКАЕТСЯ"
    } else if same(status, "STOPPING") {
        "ОСТАНАВЛИВАЕТСЯ"
    } else if same(status, "PAUSED") {
        "ПАУЗА"
    } else if same(status, "ACTIVE") {
        "АКТИВЕН"
    } else if same(status, "SUSPENDED") {
        "ПРИОСТАНОВЛЕН"
    } else {
        status
    };
    name.to_owned()
}

// ---------------------------------------------------------------------------
// Events
// ---------------------------------------------------------------------------

/// The Russian heading under which events of a category are shown.
pub open spec fn category_ru(category: Seq<char>) -> Seq<char> {
    if category == "process_blocked"@ {
        "Блокировка"@
    } else if category == "system_override"@ || category == "system_status"@ {
        "Управление"@
    } else if category == "watchdog_event"@ {
        "Контроль"@
    } else if category == "process_lifecycle"@ {
        "Система"@
    } else if category == "ipc_command"@ || category == "admin_action"@ || category == "ipc"@ {
        "Администрирование"@
    } else if category == "db"@ || category == "database"@ {
        "База Данных"@
    } else {
        "Общее"@
    }
}

fn translate_category(category: &str) -> (r: &'static str)
    ensures
        r@ == category_ru(category@),
{
    if same(category, "process_blocked") {
        "Блокировка"
    } else if same(category, "system_override") || same(category, "system_status") {
        "Управление"
    } else if same(category, "watchdog_event") {
        "Контроль"
    } else if same(category, "process_lifecycle") {
        "Система"
    } else if same(category, "ipc_command") || same(category, "admin_action") || same(
        category,
        "ipc",
    ) {
        "Администрирование"
    } else if same(category, "db") || same(category, "database") {
        "База Данных"
    } else {
        "Общее"
    }
}

/// The message of a blocked process: what was blocked, in Russian.
pub open spec fn blocked_message_ru(message: Seq<char>) -> Seq<char> {
    match text::after_first(message, "Blocked process: "@) {
        Some(name) => "Заблокирован запуск процесса: "@ + name,
        None => match text::after_first(message, "Blocked process "@) {
            Some(name) => "Заблокирован запуск процесса: "@ + name,
            None => message,
        },
    }
}

fn translate_blocked(message: &str) -> (r: String)
    ensures
        r@ == blocked_message_ru(message@),
{
    match text_after(message, "Blocked process: ") {
        Some(name) => join2("Заблокирован запуск процесса: ", name.as_str()),
        None => match text_after(message, "Blocked process ") {
            Some(name) => join2("Заблокирован запуск процесса: ", name.as_str()),
            None => message.to_owned(),
        },
    }
}

/// The message of a watchdog event in Russian.
pub open spec fn watchdog_message_ru(message: Seq<char>) -> Seq<char> {
    if text::has_part(message, "CoreService stopped responding"@) {
        "Обнаружено зависание Ядра! Выполняется экстренный перезапуск..."@
    } else if text::has_part(message, "Successfully restarted"@) {
        "Служба Ядра успешно перезапущена силами Watchdog"@
    } else if text::has_part(message, "Failed to restart"@) {
        "Критическая ошибка: Watchdog не смог перезапустить службу Ядра"@
    } else {
        message
    }
}

fn translate_watchdog(message: &str) -> (r: String)
    ensures
        r@ == watchdog_message_ru(message@),
{
    let wording = if contains(message, "CoreService stopped responding") {
        "Обнаружено зависание Ядра! Выполняется экстренный перезапуск..."
    } else if contains(message, "Successfully restarted") {
        "Служба Ядра успешно перезапущена силами Watchdog"
    } else if contains(message, "Failed to restart") {
        "Критическая ошибка: Watchdog не смог перезапустить службу Ядра"
    } else {
        message
    };
    wording.to_owned()
}

/// The message speaks of a suspension.
pub open spec fn tells_suspended(message: Seq<char>) -> bool {
    text::has_part(message, "suspended"@) || text::has_part(message, "Suspended"@)
}

/// Whether the message speaks of a suspension.
pub fn mentions_suspension(message: &str) -> (r: bool)
    ensures
        r == tells_suspended(message@),
{
    contains(message, "suspended") || contains(message, "Suspended")
}

/// The message of an override or of a status event in Russian.
pub open spec fn override_message_ru(message: Seq<char>) -> Seq<char> {
    if tells_suspended(message) {
        "Режим защиты ПРИОСТАНОВЛЕН администратором"@
    } else if text::has_part(message, "resumed"@) || text::has_part(message, "Resumed"@) {
        "Режим защиты ВОЗОБНОВЛЕН (активен)"@
    } else {
        message
    }
}

fn translate_override(message: &str) -> (r: String)
    ensures
        r@ == override_message_ru(message@),
{
    let wording = if mentions_suspension(message) {
        "Режим защиты ПРИОСТАНОВЛЕН администратором"
    } else if contains(message, "resumed") || contains(message, "Resumed") {
        "Режим защиты ВОЗОБНОВЛЕН (активен)"
    } else {
        message
    };
    wording.to_owned()
}

/// The message of a start or a stop of the service in Russian.
pub open spec fn lifecycle_message_ru(message: Seq<char>) -> Seq<char> {
    if text::has_part(message, "started"@) || text::has_part(message, "Started"@) {
        "Служба Ядра успешно запущена и контролирует систему"@
    } else if text::has_part(message, "stopped"@) || text::has_part(message, "Stopped"@) {
        "Служба Ядра остановлена"@
    } else {
        message
    }
}

fn translate_lifecycle(message: &str) -> (r: String)
    ensures
        r@ == lifecycle_message_ru(message@),
{
    let wording = if contains(message, "started") || contains(message, "Started") {
        "Служба Ядра успешно запущена и контролирует систему"
    } else if contains(message, "stopped") || contains(message, "Stopped") {
        "Служба Ядра остановлена"
    } else {
        message
    };
    wording.to_owned()
}

/// The known phrases of a message in Russian, the rest as it is.
pub open spec fn phrases_ru(message: Seq<char>) -> Seq<char> {
    let m1 = text::replaced(message, "Core Service started"@, "Служба Ядра запущена"@);
    let m2 = text::replaced(m1, "Core Service stopped"@, "Служба Ядра остановлена"@);
    let m3 = text::replaced(
        m2,
        "Admin command received: SUSPEND"@,
        "Получена команда: ПРИОСТАНОВИТЬ ЗАЩИТУ"@,
    );
    let m4 = text::replaced(
        m3,
        "Admin command received: RESUME"@,
        "Получена команда: АКТИВИРОВАТЬ ЗАЩИТУ"@,
    );
    text::replaced(m4, "Database initialized"@, "База данных успешно инициализирована"@)
}

fn translate_phrases(message: &str) -> (r: String)
    ensures
        r@ == phrases_ru(message@),
{
    proof {
        reveal_strlit("Core Service started");
        reveal_strlit("Core Service stopped");
        reveal_strlit("Admin command received: SUSPEND");
        reveal_strlit("Admin command received: RESUME");
        reveal_strlit("Database initialized");
    }
    let m1 = replace(message, "Core Service started", "Служба Ядра запущена");
    let m2 = replace(m1.as_str(), "Core Service stopped", "Служба Ядра остановлена");
    let m3 = replace(
        m2.as_str(),
        "Admin command received: SUSPEND",
        "Получена команда: ПРИОСТАНОВИТЬ ЗАЩИТУ",
    );
    let m4 = replace(
        m3.as_str(),
        "Admin command received: RESUME",
        "Получена команда: АКТИВИРОВАТЬ ЗАЩИТУ",
    );
    replace(m4.as_str(), "Database initialized", "База данных успешно инициализирована")
}

/// The message of any other event in Russian.
pub open spec fn other_message_ru(message: Seq<char>) -> Seq<char> {
    let added = "ADD_BLOCK command received for: "@;
    let removed = "REMOVE_BLOCK command received for: "@;
    if text::has_prefix(message, added) {
        "Добавлен в список блокировки: "@ + message.skip(added.len() as int)
    } else if text::has_prefix(message, removed) {
        "Удален из списка блокировки: "@ + message.skip(removed.len() as int)
    } else {
        phrases_ru(message)
    }
}

fn translate_other(message: &str) -> (r: String)
    ensures
        r@ == other_message_ru(message@),
{
    match strip_prefix(message, "ADD_BLOCK command received for: ") {
        Some(name) => join2("Добавлен в список блокировки: ", name.as_str()),
        None => match strip_prefix(message, "REMOVE_BLOCK command received for: ") {
            Some(name) => join2("Удален из списка блокировки: ", name.as_str()),
            None => translate_phrases(message),
        },
    }
}

/// The message of an event in Russian.
pub open spec fn message_ru(category: Seq<char>, message: Seq<char>) -> Seq<char> {
    if category == "process_blocked"@ {
        blocked_message_ru(message)
    } else if category == "watchdog_event"@ {
        watchdog_message_ru(message)
    } else if category == "system_override"@ || category == "system_status"@ {
        override_message_ru(message)
    } else if category == "process_lifecycle"@ {
        lifecycle_message_ru(message)
    } else {
        other_message_ru(message)
    }
}

/// What a translation carries over from behind the words that it replaces.
pub open spec fn carried_over(category: Seq<char>, message: Seq<char>) -> Option<Seq<char>> {
    let added = "ADD_BLOCK command received for: "@;
    let removed = "REMOVE_BLOCK command received for: "@;
    if category == "process_blocked"@ {
        match text::after_first(message, "Blocked process: "@) {
            Some(name) => Some(name),
            None => text::after_first(message, "Blocked process "@),
        }
    } else if category == "watchdog_event"@ || category == "system_override"@ || category
        == "system_status"@ || category == "process_lifecycle"@ {
        None
    } else if text::has_prefix(message, added) {
        Some(message.skip(added.len() as int))
    } else if text::has_prefix(message, removed) {
        Some(message.skip(removed.len() as int))
    } else {
        None
    }
}

/// A text that is carried over holds words that a translation replaces wherever
/// they stand.
pub open spec fn holds_known_words(category: Seq<char>, carried: Seq<char>) -> bool {
    if category == "process_blocked"@ {
        text::has_part(carried, "Blocked process: "@) || text::has_part(
            carried,
            "Blocked process "@,
        )
    } else {
        holds_phrase(carried)
    }
}

/// One of the known phrases stands somewhere in the text.
pub open spec fn holds_phrase(s: Seq<char>) -> bool {
    ||| text::has_part(s, "Core Service started"@)
    ||| text::has_part(s, "Core Service stopped"@)
    ||| text::has_part(s, "Admin command received: SUSPEND"@)
    ||| text::has_part(s, "Admin command received: RESUME"@)
    ||| text::has_part(s, "Database initialized"@)
}

/// Translating a message that is translated already changes nothing, as long as
/// the text carried over from the message holds none of the known words.
pub proof fn law_translated_once(category: Seq<char>, message: Seq<char>)
    requires
        carried_over(category, message) matches Some(carried) ==> !holds_known_words(
            category,
            carried,
        ),
    ensures
        message_ru(category, message_ru(category, message)) == message_ru(category, message),
{
    if category == "process_blocked"@ {
        lemma_blocked_once(message);
    } else if category == "watchdog_event"@ {
        lemma_watchdog_once(message);
    } else if category == "system_override"@ || category == "system_status"@ {
        lemma_override_once(message);
    } else if category == "process_lifecycle"@ {
        lemma_lifecycle_once(message);
    } else {
        lemma_other_once(message);
    }
}

/// `c` is none of the first `n` characters of `s`.
spec fn lacks(s: Seq<char>, c: char, n: nat) -> bool
    decreases n,
{
    n == 0 || (s[n - 1] != c && lacks(s, c, (n - 1) as nat))
}

proof fn lemma_lacks(s: Seq<char>, c: char, n: nat)
    requires
        n <= s.len(),
        lacks(s, c, n),
    ensures
        forall|i: int| 0 <= i < n ==> s[i] != c,
    decreases n,
{
    if n > 0 {
        lemma_lacks(s, c, (n - 1) as nat);
    }
}

proof fn lemma_watchdog_once(message: Seq<char>)
    ensures
        watchdog_message_ru(watchdog_message_ru(message)) == watchdog_message_ru(message),
{
    let hung = "Обнаружено зависание Ядра! Выполняется экстренный перезапуск..."@;
    let restarted = "Служба Ядра успешно перезапущена силами Watchdog"@;
    let failed = "Критическая ошибка: Watchdog не смог перезапустить службу Ядра"@;
    reveal_strlit("CoreService stopped responding");
    reveal_strlit("Successfully restarted");
    reveal_strlit("Failed to restart");
    reveal_strlit("Обнаружено зависание Ядра! Выполняется экстренный перезапуск...");
    reveal_strlit("Служба Ядра успешно перезапущена силами Watchdog");
    reveal_strlit("Критическая ошибка: Watchdog не смог перезапустить службу Ядра");
    reveal_with_fuel(lacks, 70);
    lemma_lacks(hung, 'C', hung.len());
    lemma_lacks(hung, 'S', hung.len());
    lemma_lacks(hung, 'F', hung.len());
    lemma_lacks(restarted, 'C', restarted.len());
    lemma_lacks(restarted, 'S', restarted.len());
    lemma_lacks(restarted, 'F', restarted.len());
    lemma_lacks(failed, 'C', failed.len());
    lemma_lacks(failed, 'S', failed.len());
    lemma_lacks(failed, 'F', failed.len());
    let r = watchdog_message_ru(message);
    if r != message {
        text::lemma_no_part(r, "CoreService stopped responding"@);
        text::lemma_no_part(r, "Successfully restarted"@);
        text::lemma_no_part(r, "Failed to restart"@);
    }
}

/// The first `n` characters of `s` are ASCII.
spec fn english(s: Seq<char>, n: nat) -> bool
    decreases n,
{
    n == 0 || (s[n - 1] as u32 <= 0x7f && english(s, (n - 1) as nat))
}

/// The first `n` characters of `s` are beyond ASCII, or marks and spaces.
spec fn russian(s: Seq<char>, n: nat) -> bool
    decreases n,
{
    n == 0 || ((s[n - 1] as u32) < 0x41 || 0x7f < s[n - 1] as u32) && russian(s, (n - 1) as nat)
}

/// The text is English and begins with a letter.
spec fn english_words(w: Seq<char>) -> bool {
    w.len() > 0 && 0x41 <= w[0] as u32 && english(w, w.len())
}

/// The text is Russian and begins with a letter.
spec fn russian_words(q: Seq<char>) -> bool {
    q.len() > 0 && 0x7f < q[0] as u32 && russian(q, q.len())
}

proof fn lemma_english(s: Seq<char>, n: nat)
    requires
        n <= s.len(),
        english(s, n),
    ensures
        forall|i: int| 0 <= i < n ==> #[trigger] s[i] as u32 <= 0x7f,
    decreases n,
{
    if n > 0 {
        lemma_english(s, (n - 1) as nat);
    }
}

proof fn lemma_russian(s: Seq<char>, n: nat)
    requires
        n <= s.len(),
        russian(s, n),
    ensures
        forall|i: int|
            0 <= i < n ==> (#[trigger] s[i] as u32) < 0x41 || 0x7f < s[i] as u32,
    decreases n,
{
    if n > 0 {
        lemma_russian(s, (n - 1) as nat);
    }
}

/// English and Russian words keep apart.
proof fn lemma_apart(w: Seq<char>, q: Seq<char>)
    requires
        english_words(w),
        russian_words(q),
    ensures
        text::apart(w, q),
{
    lemma_english(w, w.len());
    lemma_russian(q, q.len());
}

proof fn lemma_blocked_once(message: Seq<char>)
    requires
        carried_over("process_blocked"@, message) matches Some(name) ==> !holds_known_words(
            "process_blocked"@,
            name,
        ),
    ensures
        blocked_message_ru(blocked_message_ru(message)) == blocked_message_ru(message),
{
    let with = "Blocked process: "@;
    let without = "Blocked process "@;
    let start = "Заблокирован запуск процесса: "@;
    reveal_strlit("Blocked process: ");
    reveal_strlit("Blocked process ");
    reveal_strlit("Заблокирован запуск процесса: ");
    reveal_with_fuel(english, 18);
    reveal_with_fuel(russian, 31);
    lemma_apart(with, start);
    lemma_apart(without, start);
    let r = blocked_message_ru(message);
    if let Some(name) = carried_over("process_blocked"@, message) {
        assert(r == Seq::<char>::empty() + start + name);
        lemma_no_part_behind(start, name, with);
        lemma_no_part_behind(start, name, without);
        text::lemma_position_from(r, with, 0);
        text::lemma_position_from(r, without, 0);
    }
}

/// Behind Russian words that it keeps apart from, `w` stands only in what
/// follows them.
proof fn lemma_no_part_behind(start: Seq<char>, rest: Seq<char>, w: Seq<char>)
    requires
        text::apart(w, start),
        !text::has_part(rest, w),
    ensures
        !text::has_part(start + rest, w),
{
    let none = Seq::<char>::empty();
    assert(none + start + rest == start + rest);
    assert forall|i: int| !text::occurs_at(start + rest, w, i) by {
        if text::occurs_at(start + rest, w, i) {
            text::lemma_occurs_around(none, start, rest, w, i);
        }
    }
}

proof fn lemma_override_once(message: Seq<char>)
    ensures
        override_message_ru(override_message_ru(message)) == override_message_ru(message),
{
    let suspended = "Режим защиты ПРИОСТАНОВЛЕН администратором"@;
    let resumed = "Режим защиты ВОЗОБНОВЛЕН (активен)"@;
    reveal_strlit("suspended");
    reveal_strlit("Suspended");
    reveal_strlit("resumed");
    reveal_strlit("Resumed");
    reveal_strlit("Режим защиты ПРИОСТАНОВЛЕН администратором");
    reveal_strlit("Режим защиты ВОЗОБНОВЛЕН (активен)");
    reveal_with_fuel(russian, 43);
    lemma_russian(suspended, suspended.len());
    lemma_russian(resumed, resumed.len());
    let r = override_message_ru(message);
    if r == suspended || r == resumed {
        text::lemma_no_part(r, "suspended"@);
        text::lemma_no_part(r, "Suspended"@);
        text::lemma_no_part(r, "resumed"@);
        text::lemma_no_part(r, "Resumed"@);
    }
}

proof fn lemma_lifecycle_once(message: Seq<char>)
    ensures
        lifecycle_message_ru(lifecycle_message_ru(message)) == lifecycle_message_ru(message),
{
    let started = "Служба Ядра успешно запущена и контролирует систему"@;
    let stopped = "Служба Ядра остановлена"@;
    reveal_strlit("started");
    reveal_strlit("Started");
    reveal_strlit("stopped");
    reveal_strlit("Stopped");
    reveal_strlit("Служба Ядра успешно запущена и контролирует систему");
    reveal_strlit("Служба Ядра остановлена");
    reveal_with_fuel(russian, 52);
    lemma_russian(started, started.len());
    lemma_russian(stopped, stopped.len());
    let r = lifecycle_message_ru(message);
    if r == started || r == stopped {
        text::lemma_no_part(r, "started"@);
        text::lemma_no_part(r, "Started"@);
        text::lemma_no_part(r, "stopped"@);
        text::lemma_no_part(r, "Stopped"@);
    }
}

proof fn lemma_phrases_in_english()
    ensures
        english_words("Core Service started"@),
        english_words("Core Service stopped"@),
        english_words("Admin command received: SUSPEND"@),
        english_words("Admin command received: RESUME"@),
        english_words("Database initialized"@),
        english_words("ADD_BLOCK command received for: "@),
        english_words("REMOVE_BLOCK command received for: "@),
{
    reveal_strlit("Core Service started");
    reveal_strlit("Core Service stopped");
    reveal_strlit("Admin command received: SUSPEND");
    reveal_strlit("Admin command received: RESUME");
    reveal_strlit("Database initialized");
    reveal_strlit("ADD_BLOCK command received for: ");
    reveal_strlit("REMOVE_BLOCK command received for: ");
    reveal_with_fuel(english, 36);
}

proof fn lemma_phrases_in_russian()
    ensures
        russian_words("Служба Ядра запущена"@),
        russian_words("Служба Ядра остановлена"@),
        russian_words("Получена команда: ПРИОСТАНОВИТЬ ЗАЩИТУ"@),
        russian_words("Получена команда: АКТИВИРОВАТЬ ЗАЩИТУ"@),
        russian_words("База данных успешно инициализирована"@),
        russian_words("Добавлен в список блокировки: "@),
        russian_words("Удален из списка блокировки: "@),
{
    reveal_strlit("Служба Ядра запущена");
    reveal_strlit("Служба Ядра остановлена");
    reveal_strlit("Получена команда: ПРИОСТАНОВИТЬ ЗАЩИТУ");
    reveal_strlit("Получена команда: АКТИВИРОВАТЬ ЗАЩИТУ");
    reveal_strlit("База данных успешно инициализирована");
    reveal_strlit("Добавлен в список блокировки: ");
    reveal_strlit("Удален из списка блокировки: ");
    reveal_with_fuel(russian, 39);
}

/// A text without the known phrases has nothing to translate.
proof fn lemma_no_phrases(s: Seq<char>)
    requires
        !holds_phrase(s),
    ensures
        phrases_ru(s) == s,
{
    lemma_phrases_in_english();
    text::lemma_replaced_none(s, "Core Service started"@, "Служба Ядра запущена"@);
    text::lemma_replaced_none(s, "Core Service stopped"@, "Служба Ядра остановлена"@);
    text::lemma_replaced_none(
        s,
        "Admin command received: SUSPEND"@,
        "Получена команда: ПРИОСТАНОВИТЬ ЗАЩИТУ"@,
    );
    text::lemma_replaced_none(
        s,
        "Admin command received: RESUME"@,
        "Получена команда: АКТИВИРОВАТЬ ЗАЩИТУ"@,
    );
    text::lemma_replaced_none(
        s,
        "Database initialized"@,
        "База данных успешно инициализирована"@,
    );
}

/// Replacing a phrase by Russian words brings no English words about.
proof fn lemma_replaced_in_russian(s: Seq<char>, p: Seq<char>, q: Seq<char>, w: Seq<char>)
    requires
        english_words(p),
        russian_words(q),
        english_words(w),
    ensures
        !text::has_part(text::replaced(s, p, q), p),
        text::has_part(text::replaced(s, p, q), w) ==> text::has_part(s, w),
        text::has_prefix(text::replaced(s, p, q), w) ==> text::has_prefix(s, w),
{
    lemma_apart(p, q);
    lemma_apart(w, q);
    text::lemma_replaced_gone(s, p, q);
    text::lemma_replaced_part(s, p, q, w);
}

/// With its phrases in Russian, a text holds none of them, and begins with no
/// English words that it did not begin with.
proof fn lemma_phrases_gone(m: Seq<char>, w: Seq<char>)
    requires
        english_words(w),
    ensures
        !holds_phrase(phrases_ru(m)),
        text::has_prefix(phrases_ru(m), w) ==> text::has_prefix(m, w),
{
    lemma_phrases_in_english();
    lemma_phrases_in_russian();
    let (p1, q1) = ("Core Service started"@, "Служба Ядра запущена"@);
    let (p2, q2) = ("Core Service stopped"@, "Служба Ядра остановлена"@);
    let (p3, q3) = (
        "Admin command received: SUSPEND"@,
        "Получена команда: ПРИОСТАНОВИТЬ ЗАЩИТУ"@,
    );
    let (p4, q4) = (
        "Admin command received: RESUME"@,
        "Получена команда: АКТИВИРОВАТЬ ЗАЩИТУ"@,
    );
    let (p5, q5) = ("Database initialized"@, "База данных успешно инициализирована"@);
    let m1 = text::replaced(m, p1, q1);
    let m2 = text::replaced(m1, p2, q2);
    let m3 = text::replaced(m2, p3, q3);
    let m4 = text::replaced(m3, p4, q4);
    lemma_replaced_in_russian(m, p1, q1, w);
    lemma_replaced_in_russian(m1, p2, q2, w);
    lemma_replaced_in_russian(m1, p2, q2, p1);
    lemma_replaced_in_russian(m2, p3, q3, w);
    lemma_replaced_in_russian(m2, p3, q3, p1);
    lemma_replaced_in_russian(m2, p3, q3, p2);
    lemma_replaced_in_russian(m3, p4, q4, w);
    lemma_replaced_in_russian(m3, p4, q4, p1);
    lemma_replaced_in_russian(m3, p4, q4, p2);
    lemma_replaced_in_russian(m3, p4, q4, p3);
    lemma_replaced_in_russian(m4, p5, q5, w);
    lemma_replaced_in_russian(m4, p5, q5, p1);
    lemma_replaced_in_russian(m4, p5, q5, p2);
    lemma_replaced_in_russian(m4, p5, q5, p3);
    lemma_replaced_in_russian(m4, p5, q5, p4);
}

/// Behind Russian words, a text without the known phrases has nothing to
/// translate.
proof fn lemma_start_stays(start: Seq<char>, rest: Seq<char>)
    requires
        russian_words(start),
        !holds_phrase(rest),
    ensures
        other_message_ru(start + rest) == start + rest,
{
    let m = start + rest;
    lemma_phrases_in_english();
    lemma_apart("Core Service started"@, start);
    lemma_apart("Core Service stopped"@, start);
    lemma_apart("Admin command received: SUSPEND"@, start);
    lemma_apart("Admin command received: RESUME"@, start);
    lemma_apart("Database initialized"@, start);
    lemma_no_part_behind(start, rest, "Core Service started"@);
    lemma_no_part_behind(start, rest, "Core Service stopped"@);
    lemma_no_part_behind(start, rest, "Admin command received: SUSPEND"@);
    lemma_no_part_behind(start, rest, "Admin command received: RESUME"@);
    lemma_no_part_behind(start, rest, "Database initialized"@);
    lemma_no_phrases(m);
    lemma_no_english_start(m, "ADD_BLOCK command received for: "@);
    lemma_no_english_start(m, "REMOVE_BLOCK command received for: "@);
}

proof fn lemma_no_english_start(m: Seq<char>, w: Seq<char>)
    requires
        m.len() > 0,
        0x7f < m[0] as u32,
        english_words(w),
    ensures
        !text::has_prefix(m, w),
{
    lemma_english(w, w.len());
    if text::has_prefix(m, w) {
        assert(m.subrange(0, w.len() as int)[0] == m[0]);
    }
}

proof fn lemma_other_once(message: Seq<char>)
    requires
        text::has_prefix(message, "ADD_BLOCK command received for: "@) ==> !holds_phrase(
            message.skip("ADD_BLOCK command received for: "@.len() as int),
        ),
        !text::has_prefix(message, "ADD_BLOCK command received for: "@) && text::has_prefix(
            message,
            "REMOVE_BLOCK command received for: "@,
        ) ==> !holds_phrase(message.skip("REMOVE_BLOCK command received for: "@.len() as int)),
    ensures
        other_message_ru(other_message_ru(message)) == other_message_ru(message),
{
    let added = "ADD_BLOCK command received for: "@;
    let removed = "REMOVE_BLOCK command received for: "@;
    lemma_phrases_in_english();
    lemma_phrases_in_russian();
    if text::has_prefix(message, added) {
        lemma_start_stays(
            "Добавлен в список блокировки: "@,
            message.skip(added.len() as int),
        );
    } else if text::has_prefix(message, removed) {
        lemma_start_stays(
            "Удален из списка блокировки: "@,
            message.skip(removed.len() as int),
        );
    } else {
        lemma_phrases_gone(message, added);
        lemma_phrases_gone(message, removed);
        lemma_no_phrases(phrases_ru(message));
    }
}

/// The heading and the message of an event in Russian.
pub fn translate_event(category: &str, message: &str) -> (r: (String, String))
    ensures
        r.0@ == category_ru(category@),
        r.1@ == message_ru(category@, message@),
{
    let wording = if same(category, "process_blocked") {
        translate_blocked(message)
    } else if same(category, "watchdog_event") {
        translate_watchdog(message)
    } else if same(category, "system_override") || same(category, "system_status") {
        translate_override(message)
    } else if same(category, "process_lifecycle") {
        translate_lifecycle(message)
    } else {
        translate_other(message)
    };
    (translate_category(category).to_owned(), wording)
}

// ---------------------------------------------------------------------------
// Laws
// ---------------------------------------------------------------------------

/// A state without a Russian name keeps its own.
pub proof fn law_other_states_keep_their_names(status: Seq<char>)
    requires
        status != "RUNNING"@,
        status != "STOPPED"@,
        status != "NOT INSTALLED"@,
        status != "STARTING"@,
        status != "STOPPING"@,
        status != "PAUSED"@,
        status != "ACTIVE"@,
        status != "SUSPENDED"@,
    ensures
        status_ru(status) == status,
{
}

/// The categories are told apart.
proof fn lemma_categories_differ(category: Seq<char>)
    ensures
        category == "process_blocked"@ ==> category.len() == 15 && category[0] == 'p',
        category == "system_override"@ ==> category.len() == 15 && category[0] == 's',
        category == "system_status"@ ==> category.len() == 13,
        category == "watchdog_event"@ ==> category.len() == 14,
        category == "process_lifecycle"@ ==> category.len() == 17,
        category == "ipc_command"@ ==> category.len() == 11,
        category == "admin_action"@ ==> category.len() == 12,
        category == "ipc"@ ==> category.len() == 3,
        category == "db"@ ==> category.len() == 2,
        category == "database"@ ==> category.len() == 8,
{
    reveal_strlit("process_blocked");
    reveal_strlit("system_override");
    reveal_strlit("system_status");
    reveal_strlit("watchdog_event");
    reveal_strlit("process_lifecycle");
    reveal_strlit("ipc_command");
    reveal_strlit("admin_action");
    reveal_strlit("ipc");
    reveal_strlit("db");
    reveal_strlit("database");
}

/// Under which heading a category is shown.
pub proof fn law_headings(category: Seq<char>)
    ensures
        category == "process_blocked"@ ==> category_ru(category) == "Блокировка"@,
        category == "system_override"@ || category == "system_status"@ ==> category_ru(category)
            == "Управление"@,
        category == "watchdog_event"@ ==> category_ru(category) == "Контроль"@,
        category == "process_lifecycle"@ ==> category_ru(category) == "Система"@,
        category == "ipc_command"@ || category == "admin_action"@ || category == "ipc"@
            ==> category_ru(category) == "Администрирование"@,
        category == "db"@ || category == "database"@ ==> category_ru(category) == "База Данных"@,
        category != "process_blocked"@ && category != "system_override"@ && category
            != "system_status"@ && category != "watchdog_event"@ && category
            != "process_lifecycle"@ && category != "ipc_command"@ && category != "admin_action"@
            && category != "ipc"@ && category != "db"@ && category != "database"@ ==> category_ru(
            category,
        ) == "Общее"@,
{
    lemma_categories_differ(category);
}

/// Of a blocked process the name is kept, whatever stands before the words for
/// it; a message without them is kept whole.
pub proof fn law_blocked_processes_in_russian(before: Seq<char>, name: Seq<char>, m: Seq<char>)
    ensures
        !text::has_part(m, "Blocked process: "@) && !text::has_part(m, "Blocked process "@)
            ==> message_ru("process_blocked"@, m) == m,
        text::position(before + "Blocked process: "@ + name, "Blocked process: "@) == Some(
            before.len() as int,
        ) ==> message_ru("process_blocked"@, before + "Blocked process: "@ + name)
            == "Заблокирован запуск процесса: "@ + name,
        text::position(before + "Blocked process "@ + name, "Blocked process "@) == Some(
            before.len() as int,
        ) && !text::has_part(before + "Blocked process "@ + name, "Blocked process: "@)
            ==> message_ru("process_blocked"@, before + "Blocked process "@ + name)
            == "Заблокирован запуск процесса: "@ + name,
{
    reveal_strlit("Blocked process: ");
    reveal_strlit("Blocked process ");
    text::lemma_position_from(m, "Blocked process: "@, 0);
    text::lemma_position_from(m, "Blocked process "@, 0);
    let a = before + "Blocked process: "@ + name;
    let b = before + "Blocked process "@ + name;
    text::lemma_position_from(b, "Blocked process: "@, 0);
    assert(a.skip(before.len() as int + 17) =~= name);
    assert(b.skip(before.len() as int + 16) =~= name);
}

/// What a watchdog event says in Russian, by the words that stand in it, and
/// that it stays as it is without them.
pub proof fn law_watchdog_events_in_russian(m: Seq<char>)
    ensures
        ({
            let r = message_ru("watchdog_event"@, m);
            let hung = text::has_part(m, "CoreService stopped responding"@);
            let restarted = text::has_part(m, "Successfully restarted"@);
            let failed = text::has_part(m, "Failed to restart"@);
            &&& hung ==> r
                == "Обнаружено зависание Ядра! Выполняется экстренный перезапуск..."@
            &&& !hung && restarted ==> r == "Служба Ядра успешно перезапущена силами Watchdog"@
            &&& !hung && !restarted && failed ==> r
                == "Критическая ошибка: Watchdog не смог перезапустить службу Ядра"@
            &&& !hung && !restarted && !failed ==> r == m
        }),
{
    lemma_categories_differ("watchdog_event"@);
}

/// What an override says in Russian: a suspension, a resumption, or what it
/// says anyway.
pub proof fn law_overrides_in_russian(category: Seq<char>, m: Seq<char>)
    requires
        category == "system_override"@ || category == "system_status"@,
    ensures
        ({
            let r = message_ru(category, m);
            let suspended = text::has_part(m, "suspended"@) || text::has_part(m, "Suspended"@);
            let resumed = text::has_part(m, "resumed"@) || text::has_part(m, "Resumed"@);
            &&& suspended ==> r == "Режим защиты ПРИОСТАНОВЛЕН администратором"@
            &&& !suspended && resumed ==> r == "Режим защиты ВОЗОБНОВЛЕН (активен)"@
            &&& !suspended && !resumed ==> r == m
        }),
{
    lemma_categories_differ(category);
}

/// What a start or a stop says in Russian, and what says neither.
pub proof fn law_lifecycle_in_russian(m: Seq<char>)
    ensures
        ({
            let r = message_ru("process_lifecycle"@, m);
            let started = text::has_part(m, "started"@) || text::has_part(m, "Started"@);
            let stopped = text::has_part(m, "stopped"@) || text::has_part(m, "Stopped"@);
            &&& started ==> r == "Служба Ядра успешно запущена и контролирует систему"@
            &&& !started && stopped ==> r == "Служба Ядра остановлена"@
            &&& !started && !stopped ==> r == m
        }),
{
    lemma_categories_differ("process_lifecycle"@);
}

/// What any other event says in Russian: a change of the block list with its
/// process; else the known phrases, each wherever it stands, and the rest as it
/// is.
pub proof fn law_other_events_in_russian(category: Seq<char>, name: Seq<char>, m: Seq<char>)
    requires
        category != "process_blocked"@,
        category != "watchdog_event"@,
        category != "system_override"@,
        category != "system_status"@,
        category != "process_lifecycle"@,
    ensures
        message_ru(category, "ADD_BLOCK command received for: "@ + name)
            == "Добавлен в список блокировки: "@ + name,
        message_ru(category, "REMOVE_BLOCK command received for: "@ + name)
            == "Удален из списка блокировки: "@ + name,
        !"ADD_BLOCK command received for: "@.is_prefix_of(m)
            && !"REMOVE_BLOCK command received for: "@.is_prefix_of(m) ==> {
            let r = message_ru(category, m);
            &&& !holds_phrase(r)
            &&& !holds_phrase(m) ==> r == m
            &&& r == text::replaced(
                text::replaced(
                    text::replaced(
                        text::replaced(
                            text::replaced(m, "Core Service started"@, "Служба Ядра запущена"@),
                            "Core Service stopped"@,
                            "Служба Ядра остановлена"@,
                        ),
                        "Admin command received: SUSPEND"@,
                        "Получена команда: ПРИОСТАНОВИТЬ ЗАЩИТУ"@,
                    ),
                    "Admin command received: RESUME"@,
                    "Получена команда: АКТИВИРОВАТЬ ЗАЩИТУ"@,
                ),
                "Database initialized"@,
                "База данных успешно инициализирована"@,
            )
        },
{
    let added = "ADD_BLOCK command received for: "@;
    let removed = "REMOVE_BLOCK command received for: "@;
    lemma_phrases_in_english();
    let a = added + name;
    let b = removed + name;
    assert(a.subrange(0, added.len() as int) =~= added);
    assert(a.skip(added.len() as int) =~= name);
    assert(b.subrange(0, removed.len() as int) =~= removed);
    assert(b.skip(removed.len() as int) =~= name);
    assert(!text::has_prefix(b, added)) by {
        reveal_strlit("ADD_BLOCK command received for: ");
        reveal_strlit("REMOVE_BLOCK command received for: ");
        assert(b[0] == 'R');
        if text::has_prefix(b, added) {
            assert(b.subrange(0, added.len() as int)[0] == 'A');
        }
    }
    lemma_phrases_gone(m, added);
    if !holds_phrase(m) {
        lemma_no_phrases(m);
    }
}

} // verus!
