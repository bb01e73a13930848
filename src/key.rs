use ratatui::crossterm::event as terminal_event;
use tui_input::backend::crossterm::to_input_request;
use tui_input::{Input, InputRequest};
use vstd::prelude::*;

verus! {

/// Which key an event is about.
#[derive(Clone, Copy, Debug, PartialEq, Eq, Structural)]
pub enum KeyCode {
    Char(char),
    Enter,
    Esc,
    Up,
    Down,
    Left,
    Right,
    Backspace,
    Delete,
    Home,
    End,
    Tab,
    Other,
}

/// Whether a key went down, repeats, or went up.
#[derive(Clone, Copy, Debug, PartialEq, Eq, Structural)]
pub enum KeyEventKind {
    Press,
    Repeat,
    Release,
}

/// The edit requests of `tui_input` (`tui_input::InputRequest`), a plain
/// enum whose variants Verus reads as they are declared.
#[verifier::external_type_specification]
pub struct ExInputRequest(InputRequest);

/// One key notification from the terminal: the key, the modifiers held,
/// its kind, and the edit that it means to a text field, if any.
#[derive(Clone, Copy, Debug)]
pub struct KeyEvent {
    pub code: KeyCode,
    pub ctrl: bool,
    pub shift: bool,
    pub alt: bool,
    pub kind: KeyEventKind,
    pub edit: Option<InputRequest>,
}

impl KeyEvent {
    pub fn new(code: KeyCode, ctrl: bool, shift: bool, alt: bool, kind: KeyEventKind, edit: Option<InputRequest>) -> (r:
        KeyEvent)
        ensures
            r == (KeyEvent { code, ctrl, shift, alt, kind, edit }),
    {
        KeyEvent { code, ctrl, shift, alt, kind, edit }
    }

    /// A character key, with the edit that the text field reads in it
    /// (a plain or shifted character is inserted).
    pub fn from_char(c: char, ctrl: bool, shift: bool, alt: bool, kind: KeyEventKind) -> (r: KeyEvent)
        ensures
            r.code == KeyCode::Char(c),
            r.ctrl == ctrl && r.shift == shift && r.alt == alt && r.kind == kind,
            r.edit == if kind == KeyEventKind::Release {
                None
            } else {
                char_edit_of(c, ctrl, shift, alt)
            },
    {
        let edit = char_edit(c, ctrl, shift, alt, kind);
        KeyEvent { code: KeyCode::Char(c), ctrl, shift, alt, kind, edit }
    }

    pub open spec fn is_press(self) -> bool {
        self.kind == KeyEventKind::Press
    }

    /// The character of a key pressed together with Control, if it is one.
    pub open spec fn ctrl_char(self) -> Option<char> {
        if self.ctrl {
            match self.code {
                KeyCode::Char(c) => Some(c),
                _ => None,
            }
        } else {
            None
        }
    }

    pub fn press(&self) -> (r: bool)
        ensures
            r == self.is_press(),
    {
        match self.kind {
            KeyEventKind::Press => true,
            _ => false,
        }
    }

    pub fn control_char(&self) -> (r: Option<char>)
        ensures
            r == self.ctrl_char(),
    {
        if self.ctrl {
            match self.code {
                KeyCode::Char(c) => Some(c),
                _ => None,
            }
        } else {
            None
        }
    }
}

/// The text field of `tui_input` (`tui_input::Input`), opaque: its text and
/// cursor are known through `input_text` and `input_cursor`.
#[verifier::external_type_specification]
#[verifier::external_body]
pub struct ExInput(Input);

/// The text held by a text field.
pub uninterp spec fn input_text(i: Input) -> Seq<char>;

/// The position of a text field's cursor, in characters.
pub uninterp spec fn input_cursor(i: Input) -> nat;

pub open spec fn input_wf(i: Input) -> bool {
    input_cursor(i) <= input_text(i).len()
}

/// How a text field of text `t` and cursor `c` may become text `t2` and
/// cursor `c2` under `req`.
pub open spec fn edit_result(t: Seq<char>, c: nat, req: InputRequest, t2: Seq<char>, c2: nat) -> bool {
    &&& c2 <= t2.len()
    &&& match req {
        InputRequest::SetCursor(p) => t2 == t && c2 == if p <= t.len() {
            p as nat
        } else {
            t.len()
        },
        InputRequest::InsertChar(ch) => t2 == t.take(c as int).push(ch) + t.skip(c as int) && c2 == c + 1,
        InputRequest::GoToPrevChar => t2 == t && c2 == if c == 0 {
            0
        } else {
            (c - 1) as nat
        },
        InputRequest::GoToNextChar => t2 == t && c2 == if c == t.len() {
            c
        } else {
            c + 1
        },
        InputRequest::GoToPrevWord => t2 == t,
        InputRequest::GoToNextWord => t2 == t,
        InputRequest::GoToStart => t2 == t && c2 == 0,
        InputRequest::GoToEnd => t2 == t && c2 == t.len(),
        InputRequest::DeletePrevChar => if c == 0 {
            t2 == t && c2 == c
        } else {
            t2 == t.remove(c - 1) && c2 == c - 1
        },
        InputRequest::DeleteNextChar => if c == t.len() {
            t2 == t && c2 == c
        } else {
            t2 == t.remove(c as int) && c2 == c
        },
        InputRequest::DeletePrevWord => if c == 0 {
            t2 == t && c2 == c
        } else {
            c2 <= c && t2 == t.take(c2 as int) + t.skip(c as int)
        },
        InputRequest::DeleteNextWord => c2 == c && t2.len() <= t.len() && t2.take(c as int) == t.take(c as int),
        InputRequest::DeleteLine => t2.len() == 0 && c2 == 0,
        InputRequest::DeleteTillEnd => t2 == t.take(c as int) && c2 == c,
    }
}

/// The edit that the text field reads in a pressed character key: the
/// character itself when neither Control nor Alt is held; with Control
/// alone, the editing shortcuts.
pub open spec fn char_edit_of(c: char, ctrl: bool, shift: bool, alt: bool) -> Option<InputRequest> {
    if alt {
        None
    } else if !ctrl {
        Some(InputRequest::InsertChar(c))
    } else if shift {
        None
    } else if c == 'h' {
        Some(InputRequest::DeletePrevChar)
    } else if c == 'b' {
        Some(InputRequest::GoToPrevChar)
    } else if c == 'f' {
        Some(InputRequest::GoToNextChar)
    } else if c == 'u' {
        Some(InputRequest::DeleteLine)
    } else if c == 'w' {
        Some(InputRequest::DeletePrevWord)
    } else if c == 'k' {
        Some(InputRequest::DeleteTillEnd)
    } else if c == 'a' {
        Some(InputRequest::GoToStart)
    } else if c == 'e' {
        Some(InputRequest::GoToEnd)
    } else {
        None
    }
}

/// Relies on `tui_input::backend::crossterm::to_input_request`: the edit
/// request that a character key means to a text field (none for a
/// released key).
#[verifier::external_body]
fn char_edit(c: char, ctrl: bool, shift: bool, alt: bool, kind: KeyEventKind) -> (r: Option<InputRequest>)
    ensures
        r == if kind == KeyEventKind::Release {
            None
        } else {
            char_edit_of(c, ctrl, shift, alt)
        },
{
    let mut m = terminal_event::KeyModifiers::NONE;
    m.set(terminal_event::KeyModifiers::CONTROL, ctrl);
    m.set(terminal_event::KeyModifiers::SHIFT, shift);
    m.set(terminal_event::KeyModifiers::ALT, alt);
    let k = match kind {
        KeyEventKind::Press => terminal_event::KeyEventKind::Press,
        KeyEventKind::Repeat => terminal_event::KeyEventKind::Repeat,
        KeyEventKind::Release => terminal_event::KeyEventKind::Release,
    };
    let key = terminal_event::KeyEvent::new_with_kind(terminal_event::KeyCode::Char(c), m, k);
    to_input_request(&terminal_event::Event::Key(key))
}

/// Relies on `tui_input::Input::default`: an empty field, cursor at 0.
#[verifier::external_body]
pub(crate) fn input_new() -> (r: Input)
    ensures
        input_text(r) == Seq::<char>::empty(),
        input_cursor(r) == 0,
{
    Input::default()
}

/// Relies on `tui_input::Input::reset`: empties the field, cursor at 0.
#[verifier::external_body]
pub(crate) fn input_reset(i: &mut Input)
    ensures
        input_text(*final(i)) == Seq::<char>::empty(),
        input_cursor(*final(i)) == 0,
{
    i.reset()
}

/// Relies on `tui_input::Input::value`: the text held.
#[verifier::external_body]
pub(crate) fn input_value(i: &Input) -> (r: String)
    ensures
        r@ == input_text(*i),
{
    i.value().to_string()
}

/// Relies on `tui_input::Input::handle`: applies one edit request.
#[verifier::external_body]
pub(crate) fn input_handle(i: &mut Input, req: InputRequest)
    requires
        input_wf(*old(i)),
    ensures
        edit_result(input_text(*old(i)), input_cursor(*old(i)), req, input_text(*final(i)), input_cursor(*final(i))),
{
    i.handle(req);
}

} // verus!
