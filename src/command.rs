use vstd::prelude::*;

verus! {

/// The modifier bits of a key press: Shift.
pub const SHIFT: u8 = 0b1;

/// The modifier bits of a key press: Control.
pub const CONTROL: u8 = 0b10;

/// The modifier bits of a key press: Alt.
pub const ALT: u8 = 0b100;

/// A key on the keyboard, as far as the editor tells keys apart.
#[derive(Debug, Clone, Copy, PartialEq, Eq, Structural)]
pub enum KeyCode {
    Backspace,
    Enter,
    Left,
    Right,
    Up,
    Down,
    Home,
    End,
    PageUp,
    PageDown,
    Delete,
    Esc,
    Char(char),
    /// Any other key.
    Other,
}

/// An input event from the terminal.
#[derive(Debug, Clone, Copy, PartialEq, Eq, Structural)]
pub enum Event {
    /// A key event; `press` tells a press from a repeat or a release.
    Key { code: KeyCode, modifiers: u8, press: bool },
    /// The terminal now has this many columns and rows.
    Resize(u16, u16),
    /// Focus, mouse and paste events.
    Other,
}

/// A structural command: one that the buffer, not the line being typed,
/// carries out.
#[derive(Debug, Clone, Copy, PartialEq, Eq, Structural)]
pub enum EditorCmd {
    MoveCursor(i16),
    JumpToStart,
    JumpToEnd,
    Scroll(isize),
    Resize(u16, u16),
    Newline,
    DeleteNewlineBefore,
    DeleteNewlineAfter,
    Save,
    Exit,
}

/// Half a screen of `rows` rows, the distance of a page key.
pub open spec fn half_page(rows: u16) -> int {
    rows as int / 2
}

/// The command bound to `code` pressed with `modifiers`, on a terminal
/// `rows` rows high: Control with s, q, Up, Down, Home and End, and the
/// unmodified Up, Down, PageUp, PageDown and Enter.
pub open spec fn key_command(code: KeyCode, modifiers: u8, rows: u16) -> Option<EditorCmd> {
    if modifiers == CONTROL {
        match code {
            KeyCode::Char('s') => Some(EditorCmd::Save),
            KeyCode::Char('q') => Some(EditorCmd::Exit),
            KeyCode::Up => Some(EditorCmd::Scroll(-1isize)),
            KeyCode::Down => Some(EditorCmd::Scroll(1isize)),
            KeyCode::Home => Some(EditorCmd::JumpToStart),
            KeyCode::End => Some(EditorCmd::JumpToEnd),
            _ => None,
        }
    } else if modifiers == 0 {
        match code {
            KeyCode::Up => Some(EditorCmd::MoveCursor(-1i16)),
            KeyCode::Down => Some(EditorCmd::MoveCursor(1i16)),
            KeyCode::PageUp => Some(EditorCmd::Scroll((-half_page(rows)) as isize)),
            KeyCode::PageDown => Some(EditorCmd::Scroll(half_page(rows) as isize)),
            KeyCode::Enter => Some(EditorCmd::Newline),
            _ => None,
        }
    } else {
        None
    }
}

/// The command an event stands for: a bound key press, or a resize.
pub open spec fn event_command(event: Event, rows: u16) -> Option<EditorCmd> {
    match event {
        Event::Key { code, modifiers, press } => if press {
            key_command(code, modifiers, rows)
        } else {
            None
        },
        Event::Resize(w, h) => Some(EditorCmd::Resize(w, h)),
        Event::Other => None,
    }
}

impl EditorCmd {
    /// The command that `event` stands for, if any; `rows` is the terminal's
    /// height, which sets the page size.
    pub fn from(event: Event, rows: u16) -> (r: Option<EditorCmd>)
        ensures
            r == event_command(event, rows),
    {
        match event {
            Event::Key { code, modifiers, press } => {
                if press {
                    EditorCmd::from_key(code, modifiers, rows)
                } else {
                    None
                }
            },
            Event::Resize(w, h) => Some(EditorCmd::Resize(w, h)),
            Event::Other => None,
        }
    }

    /// The command bound to a key press, if any; `rows` is the terminal's
    /// height, which sets the page size.
    pub fn from_key(code: KeyCode, modifiers: u8, rows: u16) -> (r: Option<EditorCmd>)
        ensures
            r == key_command(code, modifiers, rows),
    {
        if modifiers == CONTROL {
            match code {
                KeyCode::Char(c) => {
                    if c == 's' {
                        Some(EditorCmd::Save)
                    } else if c == 'q' {
                        Some(EditorCmd::Exit)
                    } else {
                        None
                    }
                },
                KeyCode::Up => Some(EditorCmd::Scroll(-1)),
                KeyCode::Down => Some(EditorCmd::Scroll(1)),
                KeyCode::Home => Some(EditorCmd::JumpToStart),
                KeyCode::End => Some(EditorCmd::JumpToEnd),
                _ => None,
            }
        } else if modifiers == 0 {
            match code {
                KeyCode::Up => Some(EditorCmd::MoveCursor(-1)),
                KeyCode::Down => Some(EditorCmd::MoveCursor(1)),
                KeyCode::PageUp => Some(EditorCmd::Scroll(-((rows / 2) as isize))),
                KeyCode::PageDown => Some(EditorCmd::Scroll((rows / 2) as isize)),
                KeyCode::Enter => Some(EditorCmd::Newline),
                _ => None,
            }
        } else {
            None
        }
    }
}

} // verus!
