//! The tray agent: its menu, its icon and what its user asks for.

use vstd::prelude::*;

use crate::admin;
use crate::client;
use crate::client::SystemStatus;
use crate::network::Edition;
use crate::text::join2;
use crate::text::same;

verus! {

// ---------------------------------------------------------------------------
// The icon
// ---------------------------------------------------------------------------

/// A colour by its red, green and blue parts.
#[derive(Debug, Clone, Copy, PartialEq, Eq, Structural)]
pub struct Rgb {
    pub r: u8,
    pub g: u8,
    pub b: u8,
}

/// The side of the icon in pixels.
pub const ICON_SIDE: u32 = 16;

/// The square of a pixel's distance from the middle of the icon, in half
/// pixels.
pub open spec fn square_distance(x: int, y: int) -> int {
    (2 * x - 15) * (2 * x - 15) + (2 * y - 15) * (2 * y - 15)
}

/// `a` is the whole part of `255 * (7.5 - d / 2)`, where `square` is the square
/// of `d`.
pub open spec fn is_edge_alpha(a: int, square: int) -> bool {
    &&& 0 <= a <= 1912
    &&& (3825 - 2 * a) * (3825 - 2 * a) >= 65025 * square
    &&& 3825 - 2 * (a + 1) < 0 || (3825 - 2 * (a + 1)) * (3825 - 2 * (a + 1)) < 65025 * square
}

/// The four bytes of a pixel: a disc with a radius of six and a half pixels in
/// the colour, fading to nothing at seven and a half.
pub open spec fn is_pixel(p: Seq<u8>, colour: Rgb, x: int, y: int) -> bool {
    let square = square_distance(x, y);
    if square <= 169 {
        p == seq![colour.r, colour.g, colour.b, 255u8]
    } else if square <= 225 {
        p.len() == 4 && p.take(3) == seq![colour.r, colour.g, colour.b] && is_edge_alpha(
            p[3] as int,
            square,
        )
    } else {
        p == seq![0u8, 0u8, 0u8, 0u8]
    }
}

fn edge_alpha(square: u32) -> (r: u8)
    requires
        169 < square <= 225,
    ensures
        is_edge_alpha(r as int, square as int),
{
    let mut a: u32 = 0;
    assert((3825 - 2 * 0) * (3825 - 2 * 0) >= 65025 * square) by (nonlinear_arith)
        requires
            square <= 225,
    ;
    loop
        invariant
            169 < square <= 225,
            a <= 255,
            (3825 - 2 * a) * (3825 - 2 * a) >= 65025 * square,
        decreases 256 - a,
    {
        let next: u32 = 3825 - 2 * (a + 1);
        assert(0 <= next * next <= 3825 * 3825) by (nonlinear_arith)
            requires
                0 <= next <= 3825,
        ;
        if next * next < 65025 * square {
            assert(is_edge_alpha(a as int, square as int));
            return a as u8;
        }
        assert(a + 1 <= 255) by (nonlinear_arith)
            requires
                next == 3825 - 2 * (a + 1),
                next * next >= 65025 * square,
                square > 169,
                next <= 3825,
        ;
        a = a + 1;
    }
}

/// The pixels of a round icon, row by row, four bytes each.
pub fn create_colored_icon(r: u8, g: u8, b: u8) -> (rgba: Vec<u8>)
    ensures
        rgba@.len() == 1024,
        forall|k: int|
            0 <= k < 256 ==> is_pixel(
                #[trigger] rgba@.subrange(4 * k, 4 * k + 4),
                Rgb { r, g, b },
                k % 16,
                k / 16,
            ),
{
    let mut rgba: Vec<u8> = Vec::new();
    let ghost colour = Rgb { r, g, b };
    let mut k: u32 = 0;
    while k < 256
        invariant
            k <= 256,
            colour == (Rgb { r, g, b }),
            rgba@.len() == 4 * k,
            forall|j: int|
                0 <= j < k ==> is_pixel(
                    #[trigger] rgba@.subrange(4 * j, 4 * j + 4),
                    colour,
                    j % 16,
                    j / 16,
                ),
        decreases 256 - k,
    {
        let dx: i32 = 2 * (k % 16) as i32 - 15;
        let dy: i32 = 2 * (k / 16) as i32 - 15;
        assert(0 <= dx * dx <= 225) by (nonlinear_arith)
            requires
                -15 <= dx <= 15,
        ;
        assert(0 <= dy * dy <= 225) by (nonlinear_arith)
            requires
                -15 <= dy <= 15,
        ;
        let square: u32 = (dx * dx + dy * dy) as u32;
        assert(square == square_distance((k % 16) as int, (k / 16) as int));
        let ghost before = rgba@;
        if square <= 225 {
            rgba.push(r);
            rgba.push(g);
            rgba.push(b);
            if square <= 169 {
                rgba.push(255);
            } else {
                rgba.push(edge_alpha(square));
            }
        } else {
            rgba.push(0);
            rgba.push(0);
            rgba.push(0);
            rgba.push(0);
        }
        proof {
            let p = rgba@.subrange(4 * k, 4 * k + 4);
            if square <= 169 {
                assert(p == seq![r, g, b, 255u8]);
            } else if square <= 225 {
                assert(p.take(3) == seq![r, g, b]);
            } else {
                assert(p == seq![0u8, 0u8, 0u8, 0u8]);
            }
            assert(is_pixel(p, colour, (k % 16) as int, (k / 16) as int));
            assert forall|j: int| 0 <= j < k + 1 implies is_pixel(
                #[trigger] rgba@.subrange(4 * j, 4 * j + 4),
                colour,
                j % 16,
                j / 16,
            ) by {
                if j < k {
                    assert(rgba@.subrange(4 * j, 4 * j + 4) == before.subrange(4 * j, 4 * j + 4));
                }
            }
        }
        k = k + 1;
    }
    rgba
}

/// The colour of the icon in a state.
pub open spec fn status_colour(status: SystemStatus) -> Rgb {
    match status {
        SystemStatus::Active => Rgb { r: 0, g: 200, b: 80 },
        SystemStatus::Suspended => Rgb { r: 240, g: 190, b: 0 },
        SystemStatus::Disconnected => Rgb { r: 230, g: 50, b: 50 },
    }
}

fn colour_of(status: SystemStatus) -> (r: Rgb)
    ensures
        r == status_colour(status),
{
    match status {
        SystemStatus::Active => Rgb { r: 0, g: 200, b: 80 },
        SystemStatus::Suspended => Rgb { r: 240, g: 190, b: 0 },
        SystemStatus::Disconnected => Rgb { r: 230, g: 50, b: 50 },
    }
}

// ---------------------------------------------------------------------------
// The menu
// ---------------------------------------------------------------------------

/// An entry of the menu.
#[derive(Debug, PartialEq, Eq)]
pub enum MenuEntry {
    /// A text, and whether it can be clicked.
    Item { label: String, enabled: bool },
    Separator,
}

/// An entry of the menu, by its texts.
pub enum Entry {
    Item { label: Seq<char>, enabled: bool },
    Separator,
}

impl View for MenuEntry {
    type V = Entry;

    open spec fn view(&self) -> Entry {
        match self {
            MenuEntry::Item { label, enabled } => Entry::Item { label: label@, enabled: *enabled },
            MenuEntry::Separator => Entry::Separator,
        }
    }
}

/// What the tray shows and how its menu entries are known to the system.
pub struct SystemTray {
    status_text: String,
    machine_text: String,
    colour: Rgb,
    suspend_id: String,
    resume_id: String,
    quit_id: String,
}

/// What the tray shows.
pub struct Tray {
    pub status_text: Seq<char>,
    pub machine_text: Seq<char>,
    pub colour: Rgb,
    pub suspend_id: Seq<char>,
    pub resume_id: Seq<char>,
    pub quit_id: Seq<char>,
}

impl View for SystemTray {
    type V = Tray;

    closed spec fn view(&self) -> Tray {
        Tray {
            status_text: self.status_text@,
            machine_text: self.machine_text@,
            colour: self.colour,
            suspend_id: self.suspend_id@,
            resume_id: self.resume_id@,
            quit_id: self.quit_id@,
        }
    }
}

/// The tray before the first contact with the core service.
pub open spec fn fresh_tray(
    machine_id: Seq<char>,
    suspend_id: Seq<char>,
    resume_id: Seq<char>,
    quit_id: Seq<char>,
) -> Tray {
    Tray {
        status_text: "Статус: Подключение..."@,
        machine_text: "ID Машины: "@ + machine_id,
        colour: status_colour(SystemStatus::Disconnected),
        suspend_id,
        resume_id,
        quit_id,
    }
}

/// The entries of the menu.
pub open spec fn menu_of(tray: Tray) -> Seq<Entry> {
    seq![
        Entry::Item { label: tray.status_text, enabled: false },
        Entry::Item { label: tray.machine_text, enabled: false },
        Entry::Separator,
        Entry::Item { label: "Приостановить защиту"@, enabled: true },
        Entry::Item { label: "Возобновить защиту"@, enabled: true },
        Entry::Separator,
        Entry::Item { label: "Выйти"@, enabled: true },
    ]
}

/// What a click asks for.
#[derive(Debug, Clone, Copy, PartialEq, Eq, Structural)]
pub enum TrayAction {
    Suspend,
    Resume,
    Quit,
    Nothing,
}

impl SystemTray {
    /// The tray before the first contact with the core service; the menu
    /// entries are known to the system by the given names.
    pub fn new(machine_id: &str, suspend_id: &str, resume_id: &str, quit_id: &str) -> (r: SystemTray)
        ensures
            r@ == fresh_tray(machine_id@, suspend_id@, resume_id@, quit_id@),
    {
        SystemTray {
            status_text: "Статус: Подключение...".to_owned(),
            machine_text: join2("ID Машины: ", machine_id),
            colour: colour_of(SystemStatus::Disconnected),
            suspend_id: suspend_id.to_owned(),
            resume_id: resume_id.to_owned(),
            quit_id: quit_id.to_owned(),
        }
    }

    /// Shows a state.
    pub fn update_status(&mut self, status: SystemStatus)
        ensures
            final(self)@ == (Tray {
                status_text: "Статус: "@ + status.name_ru(),
                colour: status_colour(status),
                ..old(self)@
            }),
    {
        self.status_text = join2("Статус: ", status.to_string_ru());
        self.colour = colour_of(status);
    }

    /// The text of the state.
    pub fn status_text(&self) -> (r: &str)
        ensures
            r@ == self@.status_text,
    {
        self.status_text.as_str()
    }

    /// The colour of the icon.
    pub fn colour(&self) -> (r: Rgb)
        ensures
            r == self@.colour,
    {
        self.colour
    }

    /// The entries of the menu.
    pub fn menu(&self) -> (r: Vec<MenuEntry>)
        ensures
            r@.map_values(|e: MenuEntry| e@) == menu_of(self@),
    {
        let mut r: Vec<MenuEntry> = Vec::new();
        r.push(MenuEntry::Item { label: self.status_text.clone(), enabled: false });
        r.push(MenuEntry::Item { label: self.machine_text.clone(), enabled: false });
        r.push(MenuEntry::Separator);
        r.push(MenuEntry::Item { label: "Приостановить защиту".to_owned(), enabled: true });
        r.push(MenuEntry::Item { label: "Возобновить защиту".to_owned(), enabled: true });
        r.push(MenuEntry::Separator);
        r.push(MenuEntry::Item { label: "Выйти".to_owned(), enabled: true });
        assert(r@.map_values(|e: MenuEntry| e@) == menu_of(self@));
        r
    }

    /// Whether a click asks for a suspension.
    pub fn is_suspend_click(&self, id: &str) -> (r: bool)
        ensures
            r == (id@ == self@.suspend_id),
    {
        same(id, self.suspend_id.as_str())
    }

    /// Whether a click asks for a resumption.
    pub fn is_resume_click(&self, id: &str) -> (r: bool)
        ensures
            r == (id@ == self@.resume_id),
    {
        same(id, self.resume_id.as_str())
    }

    /// Whether a click asks to quit.
    pub fn is_quit_click(&self, id: &str) -> (r: bool)
        ensures
            r == (id@ == self@.quit_id),
    {
        same(id, self.quit_id.as_str())
    }

    /// What a click asks for.
    pub fn action_of(&self, id: &str) -> (r: TrayAction)
        ensures
            r == clicked(self@, id@),
    {
        if self.is_suspend_click(id) {
            TrayAction::Suspend
        } else if self.is_resume_click(id) {
            TrayAction::Resume
        } else if self.is_quit_click(id) {
            TrayAction::Quit
        } else {
            TrayAction::Nothing
        }
    }
}

/// What a click asks for.
pub open spec fn clicked(tray: Tray, id: Seq<char>) -> TrayAction {
    if id == tray.suspend_id {
        TrayAction::Suspend
    } else if id == tray.resume_id {
        TrayAction::Resume
    } else if id == tray.quit_id {
        TrayAction::Quit
    } else {
        TrayAction::Nothing
    }
}

// ---------------------------------------------------------------------------
// The agent
// ---------------------------------------------------------------------------

/// What the agent knows of the core service.
pub struct TrayAgent {
    status: SystemStatus,
}

/// A message for the user.
#[derive(Debug)]
pub struct Notice {
    pub title: &'static str,
    pub text: String,
    pub success: bool,
}

/// A message for the user, by its texts.
pub struct Message {
    pub title: Seq<char>,
    pub text: Seq<char>,
    pub success: bool,
}

impl View for Notice {
    type V = Message;

    open spec fn view(&self) -> Message {
        Message { title: self.title@, text: self.text@, success: self.success }
    }
}

/// What the user is told when a suspension, or else a resumption, was asked
/// for.
pub open spec fn command_message(suspend: bool, result: Result<(), Seq<char>>) -> Message {
    match result {
        Ok(_) => Message {
            title: "Успех"@,
            text: if suspend {
                "Защита системы успешно приостановлена."@
            } else {
                "Защита системы успешно возобновлена."@
            },
            success: true,
        },
        Err(e) => Message {
            title: "Ошибка"@,
            text: (if suspend {
                "Не удалось приостановить защиту:\n"@
            } else {
                "Не удалось возобновить защиту:\n"@
            }) + e,
            success: false,
        },
    }
}

/// The state after a suspension, or else a resumption, was carried out.
pub open spec fn commanded(suspend: bool) -> SystemStatus {
    if suspend {
        SystemStatus::Suspended
    } else {
        SystemStatus::Active
    }
}

/// The text of an error, where there is one.
pub open spec fn error_of(result: Result<(), String>) -> Result<(), Seq<char>> {
    match result {
        Ok(_) => Ok(()),
        Err(e) => Err(e@),
    }
}

impl TrayAgent {
    /// The state as the agent knows it.
    pub closed spec fn known(&self) -> SystemStatus {
        self.status
    }

    /// Before the first contact with the core service.
    pub fn new() -> (r: TrayAgent)
        ensures
            r.known() == SystemStatus::Disconnected,
    {
        TrayAgent { status: SystemStatus::Disconnected }
    }

    /// Takes an answer to the question for the state, `None` where there was
    /// none; the state to show, where it is a new one.
    pub fn on_poll(&mut self, answer: Option<SystemStatus>) -> (r: Option<SystemStatus>)
        ensures
            final(self).known() == (match answer {
                Some(status) => status,
                None => SystemStatus::Disconnected,
            }),
            r == (if final(self).known() == old(self).known() {
                None
            } else {
                Some(final(self).known())
            }),
    {
        let status = match answer {
            Some(status) => status,
            None => SystemStatus::Disconnected,
        };
        if status == self.status {
            return None;
        }
        self.status = status;
        Some(status)
    }

    /// Takes the result of a suspension, or else of a resumption: what to tell
    /// the user, and the state to show, where the command was carried out.
    pub fn on_command(&mut self, suspend: bool, result: &Result<(), String>) -> (r: (
        Notice,
        Option<SystemStatus>,
    ))
        ensures
            r.0@ == command_message(suspend, error_of(*result)),
            *result is Ok ==> final(self).known() == commanded(suspend) && r.1 == Some(
                final(self).known(),
            ),
            *result is Err ==> final(self).known() == old(self).known() && r.1 is None,
    {
        match result {
            Ok(_) => {
                self.status = if suspend {
                    SystemStatus::Suspended
                } else {
                    SystemStatus::Active
                };
                let text = if suspend {
                    "Защита системы успешно приостановлена."
                } else {
                    "Защита системы успешно возобновлена."
                };
                (Notice { title: "Успех", text: text.to_owned(), success: true }, Some(self.status))
            },
            Err(e) => {
                let head = if suspend {
                    "Не удалось приостановить защиту:\n"
                } else {
                    "Не удалось возобновить защиту:\n"
                };
                (Notice { title: "Ошибка", text: join2(head, e.as_str()), success: false }, None)
            },
        }
    }
}

/// Whether it is time to ask for the state again, by the nanoseconds since it
/// was last asked for.
pub fn poll_due(elapsed_ns: u64) -> (r: bool)
    ensures
        r == (elapsed_ns >= 2_000_000_000),
{
    elapsed_ns >= 2_000_000_000
}

// ---------------------------------------------------------------------------
// Laws
// ---------------------------------------------------------------------------

/// States are told apart by the colour of the icon and by the text.
pub proof fn law_states_look_different(a: SystemStatus, b: SystemStatus)
    requires
        a != b,
    ensures
        status_colour(a) != status_colour(b),
        a.name_ru() != b.name_ru(),
{
    reveal_strlit("АКТИВЕН");
    reveal_strlit("ПРИОСТАНОВЛЕН");
    reveal_strlit("ОТКЛЮЧЕН");
    assert("АКТИВЕН"@.len() == 7);
    assert("ПРИОСТАНОВЛЕН"@.len() == 13);
    assert("ОТКЛЮЧЕН"@.len() == 8);
}

/// Where a suspension or a resumption was carried out, the agent shows what the
/// core service replies when it is asked for its state afterwards.
pub proof fn law_agent_and_service_agree(
    edition: Edition,
    request: admin::Request,
    suspended: bool,
    stored: Result<(), Seq<char>>,
)
    requires
        request is Suspend || request is Resume,
    ensures
        ({
            let after = admin::outcome_of(edition, request, suspended, true, stored).suspended;
            let reply = admin::outcome_of(edition, admin::Request::Status, after, false, stored).reply;
            client::status_told(reply) == Ok::<SystemStatus, Seq<char>>(
                commanded(request is Suspend),
            )
        }),
{
    let after = admin::outcome_of(edition, request, suspended, true, stored).suspended;
    client::law_status_reply_is_read(after);
}

/// The icon is the same seen in a mirror, from either side.
pub proof fn law_icon_is_symmetric(x: int, y: int)
    ensures
        square_distance(15 - x, y) == square_distance(x, y),
        square_distance(x, 15 - y) == square_distance(x, y),
        square_distance(y, x) == square_distance(x, y),
{
    assert((2 * (15 - x) - 15) * (2 * (15 - x) - 15) == (2 * x - 15) * (2 * x - 15))
        by (nonlinear_arith);
    assert((2 * (15 - y) - 15) * (2 * (15 - y) - 15) == (2 * y - 15) * (2 * y - 15))
        by (nonlinear_arith);
}

/// There is one opacity for a distance.
pub proof fn law_one_alpha(a: int, b: int, square: int)
    requires
        is_edge_alpha(a, square),
        is_edge_alpha(b, square),
    ensures
        a == b,
{
    lemma_alpha_order(a, b, square);
    lemma_alpha_order(b, a, square);
}

proof fn lemma_alpha_order(a: int, b: int, square: int)
    requires
        is_edge_alpha(a, square),
        is_edge_alpha(b, square),
    ensures
        b <= a,
{
    if a < b {
        let p = 3825 - 2 * (a + 1);
        let q = 3825 - 2 * b;
        assert(q * q <= p * p) by (nonlinear_arith)
            requires
                0 <= q <= p,
        ;
    }
}

/// The icon is green while the protection is active, yellow while it is
/// suspended and red while the core service cannot be reached.
pub proof fn law_colours_of_the_states(status: SystemStatus)
    ensures
        ({
            let c = status_colour(status);
            &&& status == SystemStatus::Active <==> (c.r, c.g, c.b) == (0u8, 200u8, 80u8)
            &&& status == SystemStatus::Suspended <==> (c.r, c.g, c.b) == (240u8, 190u8, 0u8)
            &&& status == SystemStatus::Disconnected <==> (c.r, c.g, c.b) == (230u8, 50u8, 50u8)
        }),
{
}

/// A new tray shows that it is connecting, the name of the machine, and the
/// colour of a service that cannot be reached.
pub proof fn law_new_tray(
    machine: Seq<char>,
    suspend: Seq<char>,
    resume: Seq<char>,
    quit: Seq<char>,
)
    ensures
        ({
            let tray = fresh_tray(machine, suspend, resume, quit);
            &&& tray.status_text == "Статус: Подключение..."@
            &&& tray.machine_text == "ID Машины: "@ + machine
            &&& tray.colour == (Rgb { r: 230, g: 50, b: 50 })
            &&& clicked(tray, suspend) == TrayAction::Suspend
            &&& resume != suspend ==> clicked(tray, resume) == TrayAction::Resume
            &&& quit != suspend && quit != resume ==> clicked(tray, quit) == TrayAction::Quit
        }),
{
}

/// A click asks for what the entry is for that was clicked, and for nothing
/// where it is none of them.
pub proof fn law_clicks_are_told_apart(tray: Tray, id: Seq<char>)
    requires
        tray.suspend_id != tray.resume_id,
        tray.suspend_id != tray.quit_id,
        tray.resume_id != tray.quit_id,
    ensures
        clicked(tray, id) == TrayAction::Suspend <==> id == tray.suspend_id,
        clicked(tray, id) == TrayAction::Resume <==> id == tray.resume_id,
        clicked(tray, id) == TrayAction::Quit <==> id == tray.quit_id,
{
}

/// The menu tells the state and the machine, and lets the user suspend, resume
/// and quit, in this order.
pub proof fn law_menu(tray: Tray)
    ensures
        ({
            let menu = menu_of(tray);
            &&& menu.len() == 7
            &&& menu[0] == (Entry::Item { label: tray.status_text, enabled: false })
            &&& menu[1] == (Entry::Item { label: tray.machine_text, enabled: false })
            &&& menu[2] is Separator && menu[5] is Separator
            &&& menu[3] == (Entry::Item { label: "Приостановить защиту"@, enabled: true })
            &&& menu[4] == (Entry::Item { label: "Возобновить защиту"@, enabled: true })
            &&& menu[6] == (Entry::Item { label: "Выйти"@, enabled: true })
        }),
{
}

/// The user is told of success exactly where a command was carried out, and of
/// a failure with its reason; and of the command that was given.
pub proof fn law_messages_are_true(suspend: bool, result: Result<(), Seq<char>>)
    ensures
        ({
            let m = command_message(suspend, result);
            &&& m.success == (result is Ok)
            &&& m.title == (if result is Ok {
                "Успех"@
            } else {
                "Ошибка"@
            })
            &&& m.text == (match result {
                Ok(_) => if suspend {
                    "Защита системы успешно приостановлена."@
                } else {
                    "Защита системы успешно возобновлена."@
                },
                Err(e) => if suspend {
                    "Не удалось приостановить защиту:\n"@ + e
                } else {
                    "Не удалось возобновить защиту:\n"@ + e
                },
            })
        }),
        commanded(suspend) == SystemStatus::Suspended <==> suspend,
        commanded(suspend) == SystemStatus::Active <==> !suspend,
{
}

/// The icon is a disc: a pixel has the colour exactly if it lies in it, is
/// opaque inside, fades at the rim, the more the farther out, and is clear
/// outside.
pub proof fn law_icon_is_a_disc(p: Seq<u8>, q: Seq<u8>, colour: Rgb, x: int, y: int, v: int, w: int)
    requires
        is_pixel(p, colour, x, y),
        is_pixel(q, colour, v, w),
    ensures
        p.len() == 4,
        ({
            let d = (2 * x - 15) * (2 * x - 15) + (2 * y - 15) * (2 * y - 15);
            let e = (2 * v - 15) * (2 * v - 15) + (2 * w - 15) * (2 * w - 15);
            &&& d <= 225 ==> p[0] == colour.r && p[1] == colour.g && p[2] == colour.b
            &&& d <= 169 ==> p[3] == 255
            &&& d > 225 ==> p[0] == 0 && p[1] == 0 && p[2] == 0 && p[3] == 0
            &&& 169 < d <= e <= 225 ==> q[3] <= p[3]
            &&& 169 < d <= 225 ==> (3825 - 2 * p[3]) * (3825 - 2 * p[3]) >= 65025 * d && (3823 - 2
                * p[3]) * (3823 - 2 * p[3]) < 65025 * d
        }),
{
    let d = square_distance(x, y);
    let e = square_distance(v, w);
    if 169 < d <= 225 {
        assert(p.take(3)[0] == p[0] && p.take(3)[1] == p[1] && p.take(3)[2] == p[2]);
        if d <= e <= 225 {
            let a = p[3] as int;
            let b = q[3] as int;
            if b > a {
                let s = 3825 - 2 * (a + 1);
                let t = 3825 - 2 * b;
                assert(t * t <= s * s) by (nonlinear_arith)
                    requires
                        0 <= t <= s,
                ;
            }
        }
    }
}

/// What is known of an entry, of a message and of an error by their texts is
/// what stands in them.
pub proof fn law_messages_are_seen_whole(entry: MenuEntry, notice: Notice, error: String)
    ensures
        entry matches MenuEntry::Item { label, enabled } ==> entry@ == (Entry::Item {
            label: label@,
            enabled,
        }),
        entry is Separator <==> entry@ is Separator,
        notice@.title == notice.title@,
        notice@.text == notice.text@,
        notice@.success == notice.success,
        error_of(Err(error)) == Err::<(), Seq<char>>(error@),
        error_of(Ok(())) is Ok,
{
}

} // verus!
