use vstd::prelude::*;
use vstd::string::*;

use crate::command::{key_command, EditorCmd, KeyCode};

verus! {

/// Relies on std's `String::push`, which appends one character.
pub assume_specification[ String::push ](s: &mut String, ch: char)
    ensures
        final(s)@ == old(s)@.push(ch),
;

/// Relies on std's `String::pop`, which removes and returns the last
/// character, or returns `None` on an empty string.
pub assume_specification[ String::pop ](s: &mut String) -> (r: Option<char>)
    ensures
        old(s)@.len() == 0 ==> r is None && final(s)@ == old(s)@,
        old(s)@.len() > 0 ==> r == Some(old(s)@.last()) && final(s)@ == old(s)@.drop_last(),
;

/// Output that brings the screen line in step after an edit inside it: move
/// the cursor `left` cells left, print `text`, then move `back` cells left.
pub struct Echo {
    pub left: usize,
    pub text: String,
    pub back: usize,
}

/// The state of typing within one line. The line being typed is held in a
/// buffer of its own; in insert mode the text right of the cursor is kept
/// apart, in `after`, and the buffer ends at the cursor.
pub enum EditorState {
    /// The buffer holds the whole line.
    CursorMode,
    /// The buffer holds the line up to the cursor, `after` the rest.
    InsertMode { after: String },
}

impl EditorState {
    /// The text held apart from the buffer.
    pub open spec fn pending(self) -> Seq<char> {
        match self {
            EditorState::CursorMode => Seq::empty(),
            EditorState::InsertMode { after } => after@,
        }
    }

    /// Where the cursor stands in the line, given the buffer and the column
    /// that the screen shows.
    pub open spec fn pos(self, buf: Seq<char>, col: int) -> int {
        match self {
            EditorState::CursorMode => if col <= buf.len() { col } else { buf.len() as int },
            EditorState::InsertMode { .. } => buf.len() as int,
        }
    }

    /// The whole line: the buffer followed by the text held apart.
    pub open spec fn line(self, buf: Seq<char>) -> Seq<char> {
        buf + self.pending()
    }

    /// The part of the line before the cursor.
    pub open spec fn before(self, buf: Seq<char>, col: int) -> Seq<char> {
        self.line(buf).take(self.pos(buf, col))
    }

    /// The part of the line after the cursor.
    pub open spec fn after(self, buf: Seq<char>, col: int) -> Seq<char> {
        self.line(buf).skip(self.pos(buf, col))
    }

    /// Splits the line at the cursor: the buffer keeps what lies before it,
    /// the result is what lies after it.
    fn split_buf(&self, buf: &mut String, col: usize) -> (r: String)
        ensures
            final(buf)@ == self.before(old(buf)@, col as int),
            r@ == self.after(old(buf)@, col as int),
    {
        match self {
            EditorState::CursorMode => {
                let n = buf.as_str().unicode_len();
                let k = if col < n { col } else { n };
                let head = String::from_str(buf.as_str().substring_char(0, k));
                let tail = String::from_str(buf.as_str().substring_char(k, n));
                assert(self.line(buf@) =~= buf@);
                *buf = head;
                tail
            },
            EditorState::InsertMode { after } => {
                assert(self.line(buf@).take(buf@.len() as int) =~= buf@);
                assert(self.line(buf@).skip(buf@.len() as int) =~= after@);
                after.clone()
            },
        }
    }
}

impl EditorState {
    /// Types `c` at the cursor. The buffer then ends with `c` and the state
    /// holds the rest of the line apart; the echo prints `c` and that rest and
    /// steps back over the rest.
    pub fn print(self, buf: &mut String, col: usize, c: char) -> (r: (EditorState, Echo))
        ensures
            final(buf)@ == self.before(old(buf)@, col as int).push(c),
            r.0 is InsertMode,
            r.0.pending() == self.after(old(buf)@, col as int),
            r.1.left == 0,
            r.1.text@ == seq![c] + self.after(old(buf)@, col as int),
            r.1.back == self.after(old(buf)@, col as int).len(),
    {
        let after = self.split_buf(buf, col);
        buf.push(c);
        let mut text = String::new();
        text.push(c);
        text.append(after.as_str());
        let back = after.as_str().unicode_len();
        (EditorState::InsertMode { after }, Echo { left: 0, text, back })
    }

    /// Erases the character left of the cursor, if there is one. The echo
    /// steps left, prints the rest of the line and a blank over its old last
    /// cell, and steps back.
    pub fn erase_left(self, buf: &mut String, col: usize) -> (r: (EditorState, Echo))
        ensures
            final(buf)@ == if self.pos(old(buf)@, col as int) > 0 {
                self.before(old(buf)@, col as int).drop_last()
            } else {
                self.before(old(buf)@, col as int)
            },
            r.0 is InsertMode,
            r.0.pending() == self.after(old(buf)@, col as int),
            r.1.left == 1,
            r.1.text@ == self.after(old(buf)@, col as int).push(' '),
            r.1.back == self.after(old(buf)@, col as int).len() + 1,
    {
        let ghost p = self.pos(buf@, col as int);
        let after = self.split_buf(buf, col);
        assert(buf@.len() == p);
        buf.pop();
        let mut text = String::new();
        text.append(after.as_str());
        text.push(' ');
        let back = text.as_str().unicode_len();
        (EditorState::InsertMode { after }, Echo { left: 1, text, back })
    }

    /// Erases the character right of the cursor, if there is one, and echoes
    /// the shifted rest of the line with a blank after it. At the end of the
    /// line nothing is erased, the whole line is back in the buffer and the
    /// result holds no echo.
    pub fn erase_right(self, buf: &mut String, col: usize) -> (r: (EditorState, Option<Echo>))
        ensures
            final(buf)@ == self.before(old(buf)@, col as int),
            self.after(old(buf)@, col as int).len() == 0 <==> r.1 is None,
            self.after(old(buf)@, col as int).len() == 0 ==> r.0 is CursorMode,
            self.after(old(buf)@, col as int).len() > 0 ==> {
                &&& r.0 is InsertMode
                &&& r.0.pending() == self.after(old(buf)@, col as int).skip(1)
                &&& r.1.unwrap().left == 0
                &&& r.1.unwrap().text@ == self.after(old(buf)@, col as int).skip(1).push(' ')
                &&& r.1.unwrap().back == self.after(old(buf)@, col as int).len()
            },
    {
        let after = self.split_buf(buf, col);
        let n = after.as_str().unicode_len();
        if n == 0 {
            return (EditorState::CursorMode, None);
        }
        let rest = String::from_str(after.as_str().substring_char(1, n));
        let mut text = String::new();
        text.append(rest.as_str());
        text.push(' ');
        (EditorState::InsertMode { after: rest }, Some(Echo { left: 0, text, back: n }))
    }

    /// Leaves insert mode: the text held apart goes back onto the end of the
    /// buffer, which then holds the whole line again.
    pub fn cursor_mode(self, buf: &mut String) -> (r: EditorState)
        ensures
            final(buf)@ == self.line(old(buf)@),
            r is CursorMode,
    {
        match self {
            EditorState::CursorMode => {
                assert(self.line(buf@) =~= buf@);
            },
            EditorState::InsertMode { after } => {
                buf.append(after.as_str());
            },
        }
        EditorState::CursorMode
    }
}

/// Typing `c` leaves a buffer and a state (as [`EditorState::print`]
/// returns them) that fold back, as [`EditorState::cursor_mode`] does, into
/// the line with `c` inserted at the cursor: nothing right of the cursor is
/// lost.
pub proof fn lemma_print_then_fold(
    s: EditorState,
    buf: Seq<char>,
    col: int,
    c: char,
    s1: EditorState,
    buf1: Seq<char>,
)
    requires
        col >= 0,
        buf1 == s.before(buf, col).push(c),
        s1.pending() == s.after(buf, col),
    ensures
        s1.line(buf1) == s.line(buf).insert(s.pos(buf, col), c),
{
    assert(s1.line(buf1) =~= s.line(buf).insert(s.pos(buf, col), c));
}

/// What the terminal has to do after one key press while typing.
pub enum TypingAction {
    /// Typing ends: the buffer holds the whole line again, and the command
    /// goes to the document buffer.
    Command(EditorCmd),
    /// The line changed; the echo brings the screen in step.
    Echo(Echo),
    /// Only the cursor moves, to this column.
    MoveToColumn(usize),
    /// The key does nothing here.
    Ignore,
}

/// The text an action echoes, or nothing.
pub open spec fn echo_text(a: TypingAction) -> Seq<char> {
    match a {
        TypingAction::Echo(e) => e.text@,
        _ => Seq::empty(),
    }
}

/// Handles one key press while typing in a line: `state` and `buf` hold the
/// line, `col` is the cursor's column, `rows` the terminal's height. Returns
/// the next state, the cursor's new column and what the terminal has to do.
/// A key bound to a command, Backspace at the start of the line and Delete at
/// its end end typing: the line is folded back into the buffer and the
/// command is handed on.
pub fn typing_step(state: EditorState, buf: &mut String, col: usize, code: KeyCode, modifiers: u8, rows: u16) -> (r: (
    EditorState,
    usize,
    TypingAction,
))
    ensures
        ({
            let l = state.line(old(buf)@);
            let p = state.pos(old(buf)@, col as int);
            let l2 = r.0.line(final(buf)@);
            &&& r.0.pos(final(buf)@, r.1 as int) == r.1
            &&& if key_command(code, modifiers, rows) is Some {
                &&& r.2 == TypingAction::Command(key_command(code, modifiers, rows).unwrap())
                &&& r.0 is CursorMode
                &&& final(buf)@ == l
                &&& r.1 == p
            } else {
                match code {
                    KeyCode::Char(c) => {
                        &&& l2 == l.insert(p, c)
                        &&& r.1 == p + 1
                        &&& r.2 is Echo
                        &&& echo_text(r.2) == seq![c] + l.skip(p)
                    },
                    KeyCode::Backspace => if p == 0 {
                        &&& r.2 == TypingAction::Command(EditorCmd::DeleteNewlineBefore)
                        &&& r.0 is CursorMode
                        &&& final(buf)@ == l
                        &&& r.1 == 0
                    } else {
                        &&& l2 == l.remove(p - 1)
                        &&& r.1 == p - 1
                        &&& r.2 is Echo
                        &&& echo_text(r.2) == l.skip(p).push(' ')
                    },
                    KeyCode::Delete => if p == l.len() {
                        &&& r.2 == TypingAction::Command(EditorCmd::DeleteNewlineAfter)
                        &&& r.0 is CursorMode
                        &&& final(buf)@ == l
                        &&& r.1 == p
                    } else {
                        &&& l2 == l.remove(p)
                        &&& r.1 == p
                        &&& r.2 is Echo
                        &&& echo_text(r.2) == l.skip(p + 1).push(' ')
                    },
                    KeyCode::Left | KeyCode::Right | KeyCode::Home | KeyCode::End => {
                        &&& r.0 is CursorMode
                        &&& final(buf)@ == l
                        &&& r.2 == TypingAction::MoveToColumn(r.1)
                        &&& r.1 == match code {
                            KeyCode::Left => if p > 0 { p - 1 } else { 0 },
                            KeyCode::Right => if p < l.len() { p + 1 } else { p },
                            KeyCode::Home => 0,
                            _ => l.len() as int,
                        }
                    },
                    _ => {
                        &&& r.0 == state
                        &&& final(buf)@ == old(buf)@
                        &&& r.1 == p
                        &&& r.2 is Ignore
                    },
                }
            }
        }),
{
    let ghost l = state.line(buf@);
    let ghost p = state.pos(buf@, col as int);
    if let Some(cmd) = EditorCmd::from_key(code, modifiers, rows) {
        let pos = position(&state, buf, col);
        let st = state.cursor_mode(buf);
        return (st, pos, TypingAction::Command(cmd));
    }
    match code {
        KeyCode::Char(c) => {
            let (st, echo) = state.print(buf, col, c);
            assert(st.line(buf@) =~= l.insert(p, c));
            let pos = buf.as_str().unicode_len();
            (st, pos, TypingAction::Echo(echo))
        },
        KeyCode::Backspace => {
            let pos = position(&state, buf, col);
            if pos == 0 {
                let st = state.cursor_mode(buf);
                return (st, 0, TypingAction::Command(EditorCmd::DeleteNewlineBefore));
            }
            let (st, echo) = state.erase_left(buf, col);
            assert(st.line(buf@) =~= l.remove(p - 1));
            (st, pos - 1, TypingAction::Echo(echo))
        },
        KeyCode::Delete => {
            let pos = position(&state, buf, col);
            let (st, echo) = state.erase_right(buf, col);
            match echo {
                Some(e) => {
                    assert(st.line(buf@) =~= l.remove(p));
                    (st, pos, TypingAction::Echo(e))
                },
                None => {
                    assert(buf@ =~= l);
                    (st, pos, TypingAction::Command(EditorCmd::DeleteNewlineAfter))
                },
            }
        },
        KeyCode::Left => {
            let pos = position(&state, buf, col);
            let st = state.cursor_mode(buf);
            let to = if pos > 0 { pos - 1 } else { 0 };
            (st, to, TypingAction::MoveToColumn(to))
        },
        KeyCode::Right => {
            let pos = position(&state, buf, col);
            let st = state.cursor_mode(buf);
            let n = buf.as_str().unicode_len();
            let to = if pos < n { pos + 1 } else { pos };
            (st, to, TypingAction::MoveToColumn(to))
        },
        KeyCode::Home => {
            let st = state.cursor_mode(buf);
            (st, 0, TypingAction::MoveToColumn(0))
        },
        KeyCode::End => {
            let st = state.cursor_mode(buf);
            let n = buf.as_str().unicode_len();
            (st, n, TypingAction::MoveToColumn(n))
        },
        _ => {
            let pos = position(&state, buf, col);
            (state, pos, TypingAction::Ignore)
        },
    }
}

/// Where the cursor stands in the line.
fn position(state: &EditorState, buf: &String, col: usize) -> (r: usize)
    ensures
        r as int == state.pos(buf@, col as int),
{
    let n = buf.as_str().unicode_len();
    match state {
        EditorState::CursorMode => if col < n { col } else { n },
        EditorState::InsertMode { .. } => n,
    }
}

} // verus!
