use vstd::prelude::*;
use vstd::string::*;

use crate::command::EditorCmd;

verus! {

/// What the screen needs after a buffer operation.
#[derive(Debug, Clone, Copy, PartialEq, Eq, Structural)]
pub enum Redraw {
    /// Only the physical cursor has to be put back in place.
    Cursor,
    /// Every visible line has to be printed again.
    Full,
}

/// The mathematical picture of a [`Buffer`].
pub struct BufferView {
    /// The document, one sequence of characters per line.
    pub lines: Seq<Seq<char>>,
    /// Cursor column, in characters.
    pub col: int,
    /// Cursor row inside the viewport.
    pub row: int,
    /// Logical index of the first visible line.
    pub scroll: int,
    /// Viewport width in columns.
    pub width: int,
    /// Viewport height in rows.
    pub height: int,
}

pub open spec fn min(a: int, b: int) -> int {
    if a <= b { a } else { b }
}

pub open spec fn max(a: int, b: int) -> int {
    if a >= b { a } else { b }
}

/// The character sequences held by a vector of strings.
pub open spec fn text_of(v: Seq<String>) -> Seq<Seq<char>> {
    v.map_values(|s: String| s@)
}

/// Replacing one string replaces its characters at the same place, whatever
/// the new string is.
proof fn lemma_text_of_update(v: Seq<String>, i: int)
    requires
        0 <= i < v.len(),
    ensures
        forall|x: String| #[trigger] text_of(v.update(i, x)) == text_of(v).update(i, x@),
{
    assert forall|x: String| #[trigger] text_of(v.update(i, x)) == text_of(v).update(i, x@) by {
        assert(text_of(v.update(i, x)) =~= text_of(v).update(i, x@));
    }
}

impl BufferView {
    /// Logical index of the line the cursor addresses.
    pub open spec fn index(self) -> int {
        self.scroll + self.row
    }

    pub open spec fn line(self) -> Seq<char> {
        self.lines[self.index()]
    }

    /// The largest offset that scrolling down may reach.
    pub open spec fn scroll_max(self) -> int {
        max(0, self.lines.len() - self.height)
    }

    /// At least one line; a viewport of at least one row with the cursor row
    /// inside it; and a cursor that addresses an existing line.
    pub open spec fn wf(self) -> bool {
        &&& self.lines.len() >= 1
        &&& 1 <= self.height <= u16::MAX
        &&& 0 <= self.width <= u16::MAX
        &&& 0 <= self.row < self.height
        &&& 0 <= self.scroll
        &&& 0 <= self.col
        &&& self.index() < self.lines.len()
    }

    /// The cursor column lies within the addressed line.
    pub open spec fn column_fits(self) -> bool {
        self.col <= self.line().len()
    }

    pub open spec fn clamp_col(self) -> BufferView {
        BufferView { col: min(self.col, self.line().len() as int), ..self }
    }

    /// The offset reached by scrolling `delta` lines: up to the first line at
    /// most, and down only as far as keeps the last line at the bottom row.
    pub open spec fn scroll_target(self, delta: int) -> int {
        if delta < 0 {
            max(0, self.scroll + delta)
        } else if delta > 0 {
            min(self.scroll + delta, self.scroll_max())
        } else {
            self.scroll
        }
    }

    /// The state after scrolling by `delta`.
    pub open spec fn scrolled(self, delta: int) -> BufferView {
        if delta == 0 {
            self
        } else {
            (BufferView { scroll: self.scroll_target(delta), ..self }).clamp_col()
        }
    }

    /// The state after moving the cursor `delta` lines down (up when negative).
    /// A move outside the document changes nothing; otherwise the cursor lands
    /// on the target line, its column clamped to that line, and the viewport
    /// scrolls just enough to keep it on screen.
    pub open spec fn moved(self, delta: int) -> BufferView {
        let t = self.index() + delta;
        if t < 0 || t >= self.lines.len() {
            self
        } else {
            let y = self.row + delta;
            let r = if y < 0 {
                0
            } else if y >= self.height {
                self.height - 1
            } else {
                y
            };
            BufferView { col: min(self.col, self.lines[t].len() as int), row: r, scroll: t - r, ..self }
        }
    }

    /// The state after inserting `s` as a new line below the cursor's line
    /// and moving the cursor to its start.
    pub open spec fn inserted_after(self, s: Seq<char>) -> BufferView {
        (BufferView { lines: self.lines.insert(self.index() + 1, s), col: 0, ..self }).moved(1)
    }

    /// The state after splitting the cursor's line at the cursor: the text
    /// before it stays, the text after it becomes the next line.
    pub open spec fn newlined(self) -> BufferView {
        let c = min(self.col, self.line().len() as int);
        (BufferView { lines: self.lines.update(self.index(), self.line().take(c)), ..self }).inserted_after(
            self.line().skip(c),
        )
    }

    /// The state after joining the cursor's line onto the previous one, the
    /// cursor at the join point; nothing changes on the first line.
    pub open spec fn joined_before(self) -> BufferView {
        let i = self.index();
        if i == 0 {
            self
        } else {
            (BufferView {
                lines: self.lines.update(i - 1, self.lines[i - 1] + self.lines[i]).remove(i),
                col: self.lines[i - 1].len() as int,
                ..self
            }).moved(-1)
        }
    }

    /// The state after joining the next line onto the cursor's line; nothing
    /// changes on the last line.
    pub open spec fn joined_after(self) -> BufferView {
        let i = self.index();
        if i + 1 >= self.lines.len() {
            self
        } else {
            BufferView { lines: self.lines.update(i, self.lines[i] + self.lines[i + 1]).remove(i + 1), ..self }
        }
    }

    /// The state after the viewport becomes `width` by `height`; a cursor row
    /// that no longer fits moves to the bottom row.
    pub open spec fn resized(self, width: int, height: int) -> BufferView {
        if self.row < height {
            BufferView { width, height, ..self }
        } else {
            (BufferView { width, height, row: height - 1, ..self }).clamp_col()
        }
    }

    /// The state after placing the cursor at `col`, `row`, clamped to the line.
    pub open spec fn placed(self, col: int, row: int) -> BufferView {
        (BufferView { col, row, ..self }).clamp_col()
    }

    /// The lines that a viewport of `rows` rows shows.
    pub open spec fn visible(self, rows: int) -> Seq<Seq<char>> {
        self.lines.subrange(self.scroll, min(self.lines.len() as int, self.scroll + rows))
    }
}

/// The document with its viewport and cursor. Every buffer that [`Buffer::new`]
/// makes is well formed (see [`BufferView::wf`]) and every method keeps it so;
/// the fields are private, so no other code can break that.
pub struct Buffer {
    lines: Vec<String>,
    col: usize,
    row: u16,
    scroll_pos: usize,
    width: u16,
    height: u16,
}

impl View for Buffer {
    type V = BufferView;

    closed spec fn view(&self) -> BufferView {
        BufferView {
            lines: text_of(self.lines@),
            col: self.col as int,
            row: self.row as int,
            scroll: self.scroll_pos as int,
            width: self.width as int,
            height: self.height as int,
        }
    }
}

impl Buffer {
    /// A buffer over `lines`, shown in a `width` by `height` viewport, with the
    /// cursor at the start of the first line.
    pub fn new(lines: Vec<String>, width: u16, height: u16) -> (r: Buffer)
        requires
            lines.len() >= 1,
            height >= 1,
        ensures
            r@ == (BufferView { lines: text_of(lines@), col: 0, row: 0, scroll: 0, width: width as int, height: height as int }),
            r@.wf(),
            r@.column_fits(),
    {
        Buffer { lines, col: 0, row: 0, scroll_pos: 0, width, height }
    }

    /// The logical index of the cursor's line.
    fn index(&self) -> (r: usize)
        requires
            self@.wf(),
        ensures
            r as int == self@.index(),
            r < self.lines.len(),
            self.lines.len() == self@.lines.len(),
    {
        let n = self.lines.len();
        assert(self@.index() < n);
        self.scroll_pos + self.row as usize
    }

    /// Brings the cursor column back within the addressed line.
    fn clamp_column(&mut self)
        requires
            old(self)@.wf(),
        ensures
            final(self)@ == old(self)@.clamp_col(),
    {
        let i = self.index();
        let n = self.lines[i].as_str().unicode_len();
        if self.col > n {
            self.col = n;
        }
    }

    /// Shifts the viewport by `delta` lines, saturating at the first line and
    /// stopping where the last line reaches the bottom row. Repaints whenever
    /// the offset changed.
    pub fn scroll(&mut self, delta: isize) -> (r: Redraw)
        requires
            old(self)@.wf(),
        ensures
            final(self)@ == old(self)@.scrolled(delta as int),
            final(self)@.wf(),
            old(self)@.column_fits() ==> final(self)@.column_fits(),
            delta > 0 ==> final(self)@.scroll <= final(self)@.scroll_max(),
            (r == Redraw::Full) == (final(self)@.scroll != old(self)@.scroll),
    {
        let start = self.scroll_pos;
        if delta < 0 {
            let d: usize = (-(delta + 1)) as usize + 1;
            if start < d {
                self.scroll_pos = 0;
            } else {
                self.scroll_pos = start - d;
            }
        } else if delta > 0 {
            let n = self.lines.len();
            let h = self.height as usize;
            let top: usize = if n > h { n - h } else { 0 };
            let d = delta as usize;
            if d < top && start < top - d {
                self.scroll_pos = start + d;
            } else {
                self.scroll_pos = top;
            }
        } else {
            return Redraw::Cursor;
        }
        self.clamp_column();
        if self.scroll_pos != start {
            Redraw::Full
        } else {
            Redraw::Cursor
        }
    }

    /// Moves the cursor `delta_row` lines down (up when negative). A move past
    /// the first or the last line is ignored. The column is clamped to the
    /// target line, and at a viewport edge the view scrolls so that the cursor
    /// stays pinned to the top or bottom row; only then is a repaint needed.
    pub fn move_cursor_v(&mut self, delta_row: i16) -> (r: Redraw)
        requires
            old(self)@.wf(),
        ensures
            final(self)@ == old(self)@.moved(delta_row as int),
            final(self)@.wf(),
            old(self)@.column_fits() ==> final(self)@.column_fits(),
            (r == Redraw::Full) == (final(self)@.scroll != old(self)@.scroll),
    {
        let i = self.index();
        let target: usize;
        if delta_row < 0 {
            let d: usize = (-(delta_row as i32)) as usize;
            if d > i {
                return Redraw::Cursor;
            }
            target = i - d;
        } else {
            let d: usize = delta_row as usize;
            if d >= self.lines.len() - i {
                return Redraw::Cursor;
            }
            target = i + d;
        }
        let n = self.lines[target].as_str().unicode_len();
        if self.col > n {
            self.col = n;
        }
        let y: i32 = self.row as i32 + delta_row as i32;
        if y < 0 {
            self.row = 0;
            self.scroll(y as isize)
        } else if y >= self.height as i32 {
            self.row = self.height - 1;
            self.scroll((y - self.height as i32 + 1) as isize)
        } else {
            self.row = y as u16;
            Redraw::Cursor
        }
    }

    /// Inserts `new_line` below the cursor's line and moves the cursor to its
    /// start. A full repaint is needed unless the cursor ends on the bottom
    /// row without the view having scrolled.
    pub fn newline_after(&mut self, new_line: String) -> (r: Redraw)
        requires
            old(self)@.wf(),
        ensures
            final(self)@ == old(self)@.inserted_after(new_line@),
            final(self)@.wf(),
            final(self)@.column_fits(),
            (r == Redraw::Full) == (final(self)@.row + 1 < final(self)@.height || final(self)@.scroll
                != old(self)@.scroll),
    {
        let ghost v = self@;
        let i = self.index() + 1;
        let ghost s = new_line@;
        self.lines.insert(i, new_line);
        self.col = 0;
        assert(self@.lines =~= v.lines.insert(i as int, s));
        let moved = self.move_cursor_v(1);
        if self.row + 1 < self.height {
            Redraw::Full
        } else {
            moved
        }
    }

    /// Splits the cursor's line at the cursor (at its end when the column lies
    /// past it) and moves the cursor to the start of the new line below.
    pub fn newline(&mut self) -> (r: Redraw)
        requires
            old(self)@.wf(),
        ensures
            final(self)@ == old(self)@.newlined(),
            final(self)@.wf(),
            final(self)@.column_fits(),
            (r == Redraw::Full) == (final(self)@.row + 1 < final(self)@.height || final(self)@.scroll
                != old(self)@.scroll),
    {
        let ghost v = self@;
        let i = self.index();
        let n = self.lines[i].as_str().unicode_len();
        let c = if self.col < n { self.col } else { n };
        let head = String::from_str(self.lines[i].as_str().substring_char(0, c));
        let tail = String::from_str(self.lines[i].as_str().substring_char(c, n));
        self.lines.set(i, head);
        assert(self@.lines =~= v.lines.update(i as int, v.line().take(c as int)));
        assert(tail@ =~= v.line().skip(c as int));
        self.newline_after(tail)
    }

    /// Joins the cursor's line onto the previous line and puts the cursor at
    /// the join point, one line up. Nothing happens on the first line.
    pub fn delete_newline_before(&mut self) -> (r: Redraw)
        requires
            old(self)@.wf(),
        ensures
            final(self)@ == old(self)@.joined_before(),
            final(self)@.wf(),
            old(self)@.index() > 0 || old(self)@.column_fits() ==> final(self)@.column_fits(),
            (r == Redraw::Full) == (old(self)@.index() > 0),
    {
        let ghost v = self@;
        let i = self.index();
        if i == 0 {
            return Redraw::Cursor;
        }
        let j = i - 1;
        let col = self.lines[j].as_str().unicode_len();
        self.move_cursor_v(-1);
        self.col = col;
        let after = self.lines.remove(i);
        let mut joined = self.lines[j].clone();
        joined.append(after.as_str());
        self.lines.set(j, joined);
        assert(self@.lines =~= v.lines.update(j as int, v.lines[j as int] + v.lines[i as int]).remove(i as int));
        Redraw::Full
    }

    /// Joins the next line onto the cursor's line; the cursor stays where it
    /// is. Nothing happens on the last line.
    pub fn delete_newline_after(&mut self) -> (r: Redraw)
        requires
            old(self)@.wf(),
        ensures
            final(self)@ == old(self)@.joined_after(),
            final(self)@.wf(),
            old(self)@.column_fits() ==> final(self)@.column_fits(),
            (r == Redraw::Full) == (old(self)@.index() + 1 < old(self)@.lines.len()),
    {
        let ghost v = self@;
        let i = self.index();
        if i + 1 >= self.lines.len() {
            return Redraw::Cursor;
        }
        let after = self.lines.remove(i + 1);
        let mut joined = self.lines[i].clone();
        joined.append(after.as_str());
        self.lines.set(i, joined);
        assert(self@.lines =~= v.lines.update(i as int, v.lines[i as int] + v.lines[i + 1]).remove(i + 1));
        Redraw::Full
    }

    /// Sets the viewport to `width` by `height`. The scroll offset is kept; a
    /// cursor row below the new bottom row moves up to it.
    pub fn resize(&mut self, width: u16, height: u16)
        requires
            old(self)@.wf(),
            height >= 1,
        ensures
            final(self)@ == old(self)@.resized(width as int, height as int),
            final(self)@.wf(),
            old(self)@.column_fits() ==> final(self)@.column_fits(),
    {
        self.width = width;
        if self.row < height {
            self.height = height;
        } else {
            self.row = height - 1;
            self.height = height;
            self.clamp_column();
        }
    }

    /// Places the cursor at `col` on the visible row `row`, the column clamped
    /// to that line's length.
    pub fn save_cursor_pos(&mut self, col: u16, row: u16)
        requires
            old(self)@.wf(),
            (row as int) < old(self)@.height,
            old(self)@.scroll + row < old(self)@.lines.len(),
        ensures
            final(self)@ == old(self)@.placed(col as int, row as int),
            final(self)@.wf(),
            final(self)@.column_fits(),
    {
        self.row = row;
        self.col = col as usize;
        self.clamp_column();
    }

    /// Copies of the lines that a viewport of `rows` rows shows, from the
    /// first visible line down to the end of the document at most.
    pub fn visible_lines(&self, rows: u16) -> (r: Vec<String>)
        requires
            self@.wf(),
        ensures
            text_of(r@) == self@.visible(rows as int),
    {
        let n = self.lines.len();
        let end: usize = if rows as usize <= n - self.scroll_pos { self.scroll_pos + rows as usize } else { n };
        let mut out: Vec<String> = Vec::new();
        let mut k: usize = self.scroll_pos;
        while k < end
            invariant
                self@.wf(),
                n == self.lines.len(),
                self.scroll_pos <= k <= end <= n,
                end as int == min(n as int, self@.scroll + rows),
                text_of(out@) == self@.lines.subrange(self@.scroll, k as int),
            decreases end - k,
        {
            let ghost prev = out@;
            let line = self.lines[k].clone();
            assert(line@ == self@.lines[k as int]);
            out.push(line);
            assert(out@ == prev.push(line));
            assert(text_of(out@) =~= text_of(prev).push(line@));
            assert(text_of(out@) =~= self@.lines.subrange(self@.scroll, k + 1));
            k = k + 1;
        }
        out
    }

    /// The whole document.
    pub fn lines(&self) -> (r: &Vec<String>)
        ensures
            text_of(r@) == self@.lines,
    {
        &self.lines
    }

    /// The logical index of the first visible line.
    pub fn scroll_pos(&self) -> (r: usize)
        ensures
            r as int == self@.scroll,
    {
        self.scroll_pos
    }

    /// The viewport's height in rows.
    pub fn height(&self) -> (r: u16)
        ensures
            r as int == self@.height,
    {
        self.height
    }

    /// A view of this buffer for drawing.
    pub fn widget<'a>(&'a self) -> (r: Renderer<'a>)
        ensures
            r.buffer() == self,
    {
        Renderer(self)
    }

    /// Carries out a structural command. Saving and exiting are left to the
    /// caller and change nothing here.
    pub fn apply(&mut self, cmd: EditorCmd) -> (r: Redraw)
        requires
            old(self)@.wf(),
            valid_command(cmd),
        ensures
            final(self)@ == old(self)@.apply(cmd),
            final(self)@.wf(),
            old(self)@.column_fits() ==> final(self)@.column_fits(),
    {
        match cmd {
            EditorCmd::MoveCursor(d) => self.move_cursor_v(d),
            EditorCmd::JumpToStart => self.scroll(isize::MIN),
            EditorCmd::JumpToEnd => self.scroll(isize::MAX),
            EditorCmd::Scroll(d) => self.scroll(d),
            EditorCmd::Resize(w, h) => {
                self.resize(w, h);
                Redraw::Full
            },
            EditorCmd::Newline => self.newline(),
            EditorCmd::DeleteNewlineBefore => self.delete_newline_before(),
            EditorCmd::DeleteNewlineAfter => self.delete_newline_after(),
            EditorCmd::Save => Redraw::Cursor,
            EditorCmd::Exit => Redraw::Cursor,
        }
    }

    /// The line that the cursor addresses, for editing in place.
    pub fn get_line(&mut self) -> (r: &mut String)
        requires
            old(self)@.wf(),
        ensures
            r@ == old(self)@.line(),
            final(self)@ == (BufferView { lines: old(self)@.lines.update(old(self)@.index(), final(r)@), ..old(self)@ }),
            final(self)@.wf(),
    {
        let i = self.index();
        proof { lemma_text_of_update(self.lines@, i as int); }
        &mut self.lines[i]
    }

    /// The cursor's screen position, its column clamped to the addressed line.
    pub fn cursor(&self) -> (r: (u16, u16))
        requires
            self@.wf(),
        ensures
            r.0 as int == min(min(self@.col, self@.line().len() as int), u16::MAX as int),
            r.1 as int == self@.row,
    {
        let i = self.index();
        let n = self.lines[i].as_str().unicode_len();
        let x = if self.col < n { self.col } else { n };
        let x = if x < u16::MAX as usize { x as u16 } else { u16::MAX };
        (x, self.row)
    }
}

impl BufferView {
    /// The state after the buffer carries out `cmd`. Jumps scroll by the
    /// extreme offsets; saving and exiting leave the buffer as it is.
    pub open spec fn apply(self, cmd: EditorCmd) -> BufferView {
        match cmd {
            EditorCmd::MoveCursor(d) => self.moved(d as int),
            EditorCmd::JumpToStart => self.scrolled(isize::MIN as int),
            EditorCmd::JumpToEnd => self.scrolled(isize::MAX as int),
            EditorCmd::Scroll(d) => self.scrolled(d as int),
            EditorCmd::Resize(w, h) => self.resized(w as int, h as int),
            EditorCmd::Newline => self.newlined(),
            EditorCmd::DeleteNewlineBefore => self.joined_before(),
            EditorCmd::DeleteNewlineAfter => self.joined_after(),
            EditorCmd::Save => self,
            EditorCmd::Exit => self,
        }
    }

    /// The state after carrying out `cmds` in order.
    pub open spec fn apply_all(self, cmds: Seq<EditorCmd>) -> BufferView
        decreases cmds.len(),
    {
        if cmds.len() == 0 {
            self
        } else {
            self.apply(cmds[0]).apply_all(cmds.skip(1))
        }
    }
}

/// A command the buffer can carry out: a resize keeps at least one row.
pub open spec fn valid_command(cmd: EditorCmd) -> bool {
    match cmd {
        EditorCmd::Resize(_, h) => h >= 1,
        _ => true,
    }
}

/// Every command keeps the buffer well formed, so the document keeps at
/// least one line and the cursor a line to stand on, and a cursor column
/// within its line stays within its line.
pub proof fn lemma_command_keeps_invariants(v: BufferView, cmd: EditorCmd)
    requires
        v.wf(),
        valid_command(cmd),
    ensures
        v.apply(cmd).wf(),
        v.apply(cmd).lines.len() >= 1,
        v.column_fits() ==> v.apply(cmd).column_fits(),
{
    match cmd {
        EditorCmd::Newline => {
            let i = v.index();
            let c = min(v.col, v.line().len() as int);
            let w = BufferView { lines: v.lines.update(i, v.line().take(c)), ..v };
            let u = BufferView { lines: w.lines.insert(i + 1, v.line().skip(c)), col: 0, ..w };
            assert(u.lines.len() == v.lines.len() + 1);
        },
        EditorCmd::DeleteNewlineBefore => {
            let i = v.index();
            if i > 0 {
                let joined = v.lines[i - 1] + v.lines[i];
                let u = BufferView {
                    lines: v.lines.update(i - 1, joined).remove(i),
                    col: v.lines[i - 1].len() as int,
                    ..v
                };
                assert(u.lines[i - 1] == joined);
            }
        },
        EditorCmd::DeleteNewlineAfter => {
            let i = v.index();
            if i + 1 < v.lines.len() {
                let joined = v.lines[i] + v.lines[i + 1];
                assert(v.lines.update(i, joined).remove(i + 1)[i] == joined);
            }
        },
        _ => {},
    }
}

/// Over any sequence of commands the document keeps at least one line, the
/// buffer stays well formed, and the cursor column stays within the
/// addressed line.
pub proof fn lemma_commands_keep_invariants(v: BufferView, cmds: Seq<EditorCmd>)
    requires
        v.wf(),
        v.column_fits(),
        forall|k: int| 0 <= k < cmds.len() ==> valid_command(#[trigger] cmds[k]),
    ensures
        v.apply_all(cmds).wf(),
        v.apply_all(cmds).lines.len() >= 1,
        v.apply_all(cmds).column_fits(),
    decreases cmds.len(),
{
    if cmds.len() > 0 {
        lemma_command_keeps_invariants(v, cmds[0]);
        let rest = cmds.skip(1);
        assert forall|k: int| 0 <= k < rest.len() implies valid_command(#[trigger] rest[k]) by {
            assert(rest[k] == cmds[k + 1]);
        }
        lemma_commands_keep_invariants(v.apply(cmds[0]), rest);
    }
}

/// Scrolling never leaves a negative offset, and scrolling down never goes
/// past the offset that keeps the last line at the bottom row.
pub proof fn lemma_scroll_clamp(v: BufferView, delta: int)
    requires
        v.wf(),
    ensures
        v.scrolled(delta).scroll >= 0,
        delta > 0 ==> v.scrolled(delta).scroll <= v.scrolled(delta).scroll_max(),
{
}

/// Scrolling, vertical moves and splitting lines keep the scroll offset
/// within `0..=max(0, lines - height)` once it is there.
pub proof fn lemma_scroll_clamp_kept(v: BufferView, delta: int)
    requires
        v.wf(),
        v.scroll <= v.scroll_max(),
    ensures
        0 <= v.scrolled(delta).scroll <= v.scrolled(delta).scroll_max(),
        0 <= v.moved(delta).scroll <= v.moved(delta).scroll_max(),
        0 <= v.newlined().scroll <= v.newlined().scroll_max(),
{
    let i = v.index();
    let c = min(v.col, v.line().len() as int);
    let w = BufferView { lines: v.lines.update(i, v.line().take(c)), ..v };
    let u = BufferView { lines: w.lines.insert(i + 1, v.line().skip(c)), col: 0, ..w };
    assert(u.lines.len() == v.lines.len() + 1);
}

/// Splitting a line at the cursor, going back up, and joining the next line
/// onto it gives back the document as it was.
pub proof fn lemma_split_join(v: BufferView)
    requires
        v.wf(),
    ensures
        v.newlined().moved(-1).joined_after().lines == v.lines,
{
    let i = v.index();
    let l = v.line();
    let c = min(v.col, l.len() as int);
    let w = BufferView { lines: v.lines.update(i, l.take(c)), ..v };
    let u = BufferView { lines: w.lines.insert(i + 1, l.skip(c)), col: 0, ..w };
    assert(u.lines.len() == v.lines.len() + 1);
    assert(u.lines[i] == l.take(c));
    assert(u.lines[i + 1] == l.skip(c));
    let n = v.newlined();
    assert(n.index() == i + 1);
    let m = n.moved(-1);
    assert(m.index() == i);
    assert(l.take(c) + l.skip(c) =~= l);
    assert(m.joined_after().lines =~= v.lines);
}

/// Draws the visible part of a [`Buffer`].
pub struct Renderer<'a>(&'a Buffer);

impl<'a> Renderer<'a> {
    pub closed spec fn buffer(&self) -> &'a Buffer {
        self.0
    }

    /// The lines shown in an area `rows` rows high.
    pub fn lines(&self, rows: u16) -> (r: Vec<String>)
        requires
            self.buffer()@.wf(),
        ensures
            text_of(r@) == self.buffer()@.visible(rows as int),
    {
        self.0.visible_lines(rows)
    }
}

} // verus!
