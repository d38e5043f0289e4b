//! The dialog in which the tray agent asks for the master password.

use vstd::prelude::*;

use crate::utf16;
use crate::utf16::decode_strict;

verus! {

// ---------------------------------------------------------------------------
// The window
// ---------------------------------------------------------------------------

pub const DIALOG_WIDTH: i32 = 366;

pub const DIALOG_HEIGHT: i32 = 160;

/// The number of the prompt among the controls.
pub const PROMPT_ID: i32 = 100;

/// The number of the password field.
pub const FIELD_ID: i32 = 101;

/// The number of the button that confirms.
pub const CONFIRM_ID: i32 = 1;

/// The number of the button that cancels.
pub const CANCEL_ID: i32 = 2;

/// How many code units of the password are read at most, the closing zero
/// included.
pub const FIELD_CAPACITY: i32 = 256;

/// What a control is.
#[derive(Debug, Clone, Copy, PartialEq, Eq, Structural)]
pub enum ControlKind {
    Label,
    PasswordField,
    DefaultButton,
    Button,
}

/// A control of the dialog.
#[derive(Debug)]
pub struct Control {
    pub kind: ControlKind,
    pub text: &'static str,
    pub x: i32,
    pub y: i32,
    pub width: i32,
    pub height: i32,
    pub id: i32,
}

/// The control lies inside the window.
pub open spec fn fits(c: Control) -> bool {
    0 <= c.x && 0 <= c.y && 0 < c.width && 0 < c.height && c.x + c.width <= DIALOG_WIDTH && c.y
        + c.height <= DIALOG_HEIGHT
}

/// The controls do not cover each other.
pub open spec fn apart(a: Control, b: Control) -> bool {
    a.x + a.width <= b.x || b.x + b.width <= a.x || a.y + a.height <= b.y || b.y + b.height <= a.y
}

/// The controls of the dialog, in the order in which they are created.
pub fn dialog_controls() -> (r: Vec<Control>)
    ensures
        r@.len() == 4,
        r@[0].kind == ControlKind::Label && r@[0].text@ == ""@ && r@[0].id == PROMPT_ID,
        (r@[0].x, r@[0].y, r@[0].width, r@[0].height) == (20i32, 20i32, 310i32, 20i32),
        r@[1].kind == ControlKind::PasswordField && r@[1].text@ == ""@ && r@[1].id == FIELD_ID,
        (r@[1].x, r@[1].y, r@[1].width, r@[1].height) == (20i32, 45i32, 310i32, 24i32),
        r@[2].kind == ControlKind::DefaultButton && r@[2].text@ == "Подтвердить"@ && r@[2].id
            == CONFIRM_ID,
        (r@[2].x, r@[2].y, r@[2].width, r@[2].height) == (120i32, 85i32, 100i32, 28i32),
        r@[3].kind == ControlKind::Button && r@[3].text@ == "Отмена"@ && r@[3].id == CANCEL_ID,
        (r@[3].x, r@[3].y, r@[3].width, r@[3].height) == (230i32, 85i32, 100i32, 28i32),
        forall|i: int| 0 <= i < 4 ==> fits(#[trigger] r@[i]),
        forall|i: int, j: int| 0 <= i < j < 4 ==> apart(#[trigger] r@[i], #[trigger] r@[j]),
{
    let mut r: Vec<Control> = Vec::new();
    r.push(
        Control {
            kind: ControlKind::Label,
            text: "",
            x: 20,
            y: 20,
            width: 310,
            height: 20,
            id: PROMPT_ID,
        },
    );
    r.push(
        Control {
            kind: ControlKind::PasswordField,
            text: "",
            x: 20,
            y: 45,
            width: 310,
            height: 24,
            id: FIELD_ID,
        },
    );
    r.push(
        Control {
            kind: ControlKind::DefaultButton,
            text: "Подтвердить",
            x: 120,
            y: 85,
            width: 100,
            height: 28,
            id: CONFIRM_ID,
        },
    );
    r.push(
        Control {
            kind: ControlKind::Button,
            text: "Отмена",
            x: 230,
            y: 85,
            width: 100,
            height: 28,
            id: CANCEL_ID,
        },
    );
    r
}

/// Half of `n`, the fraction dropped.
pub open spec fn half(n: int) -> int {
    if n >= 0 {
        n / 2
    } else {
        -((-n) / 2)
    }
}

fn centred(screen: i32, size: i32) -> (r: i32)
    requires
        0 <= size,
        i32::MIN + size <= screen,
    ensures
        r == half(screen - size),
{
    let d: i64 = screen as i64 - size as i64;
    if d >= 0 {
        (d / 2) as i32
    } else {
        (-((-d) / 2)) as i32
    }
}

/// Where the dialog stands on a screen of the given size: in its middle.
pub fn dialog_position(screen_width: i32, screen_height: i32) -> (r: (i32, i32))
    requires
        i32::MIN + DIALOG_WIDTH <= screen_width,
        i32::MIN + DIALOG_HEIGHT <= screen_height,
    ensures
        r.0 == half(screen_width - DIALOG_WIDTH),
        r.1 == half(screen_height - DIALOG_HEIGHT),
{
    (centred(screen_width, DIALOG_WIDTH), centred(screen_height, DIALOG_HEIGHT))
}

// ---------------------------------------------------------------------------
// The conversation
// ---------------------------------------------------------------------------

/// What the user did.
#[derive(Debug, Clone, Copy, PartialEq, Eq, Structural)]
pub enum DialogCommand {
    Confirm,
    Cancel,
    Nothing,
}

/// What the user did, by the number that comes with the system's message; its
/// lower sixteen bits name the control.
pub fn command_of(wparam: u64) -> (r: DialogCommand)
    ensures
        r == (if wparam % 65536 == 1 {
            DialogCommand::Confirm
        } else if wparam % 65536 == 2 {
            DialogCommand::Cancel
        } else {
            DialogCommand::Nothing
        }),
{
    let id: u64 = wparam % 65536;
    if id == 1 {
        DialogCommand::Confirm
    } else if id == 2 {
        DialogCommand::Cancel
    } else {
        DialogCommand::Nothing
    }
}

/// A message of the system to the dialog.
#[derive(Debug, Clone, Copy, PartialEq, Eq, Structural)]
pub enum DialogMessage {
    /// The window was created.
    Create,
    /// A control was used, by the number that comes with the message.
    Command(u64),
    /// The window is to be closed.
    Close,
    /// The window is gone.
    Destroy,
    Other,
}

/// What the dialog does about a message.
#[derive(Debug, Clone, Copy, PartialEq, Eq, Structural)]
pub enum DialogAction {
    CreateControls,
    /// Read the password field, take what is in it, and close the window.
    TakePasswordAndClose,
    CloseWindow,
    EndLoop,
    /// Leave it to the system.
    PassOn,
    Nothing,
}

/// What the dialog does about a message.
pub fn on_message(message: DialogMessage) -> (r: DialogAction)
    ensures
        r == (match message {
            DialogMessage::Create => DialogAction::CreateControls,
            DialogMessage::Command(wparam) => if wparam % 65536 == 1 {
                DialogAction::TakePasswordAndClose
            } else if wparam % 65536 == 2 {
                DialogAction::CloseWindow
            } else {
                DialogAction::Nothing
            },
            DialogMessage::Close => DialogAction::CloseWindow,
            DialogMessage::Destroy => DialogAction::EndLoop,
            DialogMessage::Other => DialogAction::PassOn,
        }),
{
    match message {
        DialogMessage::Create => DialogAction::CreateControls,
        DialogMessage::Command(wparam) => match command_of(wparam) {
            DialogCommand::Confirm => DialogAction::TakePasswordAndClose,
            DialogCommand::Cancel => DialogAction::CloseWindow,
            DialogCommand::Nothing => DialogAction::Nothing,
        },
        DialogMessage::Close => DialogAction::CloseWindow,
        DialogMessage::Destroy => DialogAction::EndLoop,
        DialogMessage::Other => DialogAction::PassOn,
    }
}

/// What was entered so far.
pub struct PasswordDialog {
    result: Option<String>,
    confirmed: bool,
}

/// What was entered so far, by its texts.
pub struct Dialog {
    pub result: Option<Seq<char>>,
    pub confirmed: bool,
}

impl View for PasswordDialog {
    type V = Dialog;

    closed spec fn view(&self) -> Dialog {
        Dialog {
            result: match self.result {
                Some(t) => Some(t@),
                None => None,
            },
            confirmed: self.confirmed,
        }
    }
}

/// What stands in the password field: `len` code units of the buffer; none
/// where they are no text.
pub open spec fn entered(buffer: Seq<u16>, len: int) -> Option<Seq<char>> {
    let units = if len <= 0 {
        Seq::<u16>::empty()
    } else if len < buffer.len() {
        buffer.take(len)
    } else {
        buffer
    };
    if utf16::well_formed(units) {
        Some(utf16::decode(units))
    } else {
        None
    }
}

/// The dialog after the user has confirmed: with what was entered, or as it
/// was where that is no text.
pub open spec fn confirmed(dialog: Dialog, buffer: Seq<u16>, len: int) -> Dialog {
    match entered(buffer, len) {
        Some(password) => Dialog { result: Some(password), confirmed: true },
        None => dialog,
    }
}

impl PasswordDialog {
    /// A dialog in which nothing was entered yet.
    pub fn open() -> (r: PasswordDialog)
        ensures
            r@ == (Dialog { result: None, confirmed: false }),
    {
        PasswordDialog { result: None, confirmed: false }
    }

    /// Takes what stands in the password field: `len` code units of the
    /// buffer.
    pub fn confirm(&mut self, buffer: &Vec<u16>, len: i32)
        ensures
            final(self)@ == confirmed(old(self)@, buffer@, len as int),
    {
        if len <= 0 {
            assert(utf16::decode(Seq::<u16>::empty()) == Seq::<char>::empty());
            self.result = Some(String::new());
            self.confirmed = true;
            return ;
        }
        let n: usize = if (len as usize) < buffer.len() {
            len as usize
        } else {
            buffer.len()
        };
        assert(buffer@.take(buffer@.len() as int) == buffer@);
        if let Some(password) = decode_strict(buffer, n) {
            self.result = Some(password);
            self.confirmed = true;
        }
    }

    /// The password, where the user has confirmed one.
    pub fn answer(&self) -> (r: Option<String>)
        ensures
            match r {
                Some(t) => self@.confirmed && self@.result == Some(t@),
                None => !self@.confirmed || self@.result is None,
            },
    {
        if self.confirmed {
            self.result.clone()
        } else {
            None
        }
    }
}

// ---------------------------------------------------------------------------
// Laws
// ---------------------------------------------------------------------------

/// What was typed is what the dialog gives: text of the field comes back as
/// it is, whatever stands behind it in the buffer.
pub proof fn law_typed_text_is_taken(dialog: Dialog, password: Seq<char>, rest: Seq<u16>)
    ensures
        ({
            let units = utf16::encode(password);
            confirmed(dialog, units + rest, units.len() as int) == (Dialog {
                result: Some(password),
                confirmed: true,
            })
        }),
{
    let units = utf16::encode(password);
    utf16::law_round_trip(password);
    assert((units + rest).take(units.len() as int) == units);
    if units.len() == 0 {
        assert(units == Seq::<u16>::empty());
    }
    if rest.len() == 0 {
        assert(units + rest == units);
    }
}

/// A password is given only once the user has confirmed.
pub proof fn law_nothing_without_confirmation(dialog: Dialog, buffer: Seq<u16>, len: int)
    requires
        dialog.confirmed ==> dialog.result is Some,
    ensures
        confirmed(dialog, buffer, len).confirmed ==> confirmed(dialog, buffer, len).result is Some,
        entered(buffer, len) is None ==> confirmed(dialog, buffer, len) == dialog,
{
}

/// A dialog that is not larger than the screen stands wholly on it.
pub proof fn law_dialog_on_screen(screen: int, size: int)
    requires
        0 <= size <= screen,
    ensures
        0 <= half(screen - size),
        half(screen - size) + size <= screen,
{
}

/// A dialog stands in the middle of the screen, to the pixel: what is left over
/// on both sides of it differs by no more than one.
pub proof fn law_dialog_in_the_middle(screen: int, size: int)
    ensures
        ({
            let left = half(screen - size);
            let right = screen - size - left;
            -1 <= right - left <= 1 && (screen >= size ==> left <= right) && (screen <= size
                ==> right <= left)
        }),
{
}

/// What stands in the field is the text of as many code units as were typed, and
/// no more than there are; half a pair is no text.
pub proof fn law_field_is_read(buffer: Seq<u16>, len: int)
    ensures
        ({
            let n = if len <= 0 {
                0
            } else if len <= buffer.len() {
                len
            } else {
                buffer.len() as int
            };
            entered(buffer, len) == (if utf16::well_formed(buffer.take(n)) {
                Some(utf16::decode(buffer.take(n)))
            } else {
                None
            })
        }),
{
    assert(buffer.take(0) =~= Seq::<u16>::empty());
    assert(buffer.take(buffer.len() as int) =~= buffer);
}

/// Confirming takes what stands in the field, whatever was taken before.
pub proof fn law_last_confirmation_counts(a: Dialog, b: Dialog, buffer: Seq<u16>, len: int)
    ensures
        entered(buffer, len) matches Some(password) ==> confirmed(a, buffer, len) == confirmed(
            b,
            buffer,
            len,
        ) && confirmed(a, buffer, len).confirmed && confirmed(a, buffer, len).result == Some(
            password,
        ),
        entered(buffer, len) is None ==> confirmed(a, buffer, len) == a,
{
}

} // verus!
