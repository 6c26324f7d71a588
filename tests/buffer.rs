use linedit::buffer::{Buffer, Redraw};
use linedit::command::EditorCmd;

fn doc(lines: &[&str]) -> Vec<String> {
    lines.iter().map(|s| s.to_string()).collect()
}

fn make(lines: &[&str], height: u16) -> Buffer {
    Buffer::new(doc(lines), 80, height)
}

#[test]
fn new_starts_at_origin() {
    let b = make(&["one", "two"], 10);
    assert_eq!(b.cursor(), (0, 0));
    assert_eq!(b.scroll_pos(), 0);
    assert_eq!(b.height(), 10);
    assert_eq!(b.lines(), &doc(&["one", "two"]));
}

#[test]
fn move_down_twice_pins_to_bottom_row() {
    let mut b = make(&["one", "two", "three"], 2);
    assert_eq!(b.move_cursor_v(1), Redraw::Cursor);
    assert_eq!(b.move_cursor_v(1), Redraw::Full);
    assert_eq!(b.cursor(), (0, 1));
    assert_eq!(b.scroll_pos(), 1);
    assert_eq!(b.get_line().as_str(), "three");
}

#[test]
fn move_past_ends_is_ignored() {
    let mut b = make(&["one", "two"], 5);
    assert_eq!(b.move_cursor_v(-1), Redraw::Cursor);
    assert_eq!(b.cursor(), (0, 0));
    b.move_cursor_v(1);
    assert_eq!(b.move_cursor_v(1), Redraw::Cursor);
    assert_eq!(b.cursor(), (0, 1));
    assert_eq!(b.move_cursor_v(i16::MAX), Redraw::Cursor);
    assert_eq!(b.move_cursor_v(i16::MIN), Redraw::Cursor);
    assert_eq!(b.cursor(), (0, 1));
}

#[test]
fn move_up_at_top_row_scrolls_up() {
    let mut b = make(&["a", "b", "c", "d"], 2);
    b.move_cursor_v(3);
    assert_eq!(b.scroll_pos(), 2);
    assert_eq!(b.cursor(), (0, 1));
    b.move_cursor_v(-1);
    assert_eq!(b.cursor(), (0, 0));
    assert_eq!(b.scroll_pos(), 2);
    assert_eq!(b.move_cursor_v(-1), Redraw::Full);
    assert_eq!(b.cursor(), (0, 0));
    assert_eq!(b.scroll_pos(), 1);
}

#[test]
fn move_clamps_column_to_shorter_line() {
    let mut b = make(&["abcdef", "ab", "abcdef"], 5);
    b.save_cursor_pos(5, 0);
    assert_eq!(b.cursor(), (5, 0));
    b.move_cursor_v(1);
    assert_eq!(b.cursor(), (2, 1));
    b.move_cursor_v(1);
    assert_eq!(b.cursor(), (2, 2));
}

#[test]
fn save_cursor_pos_clamps_column() {
    let mut b = make(&["abc", "de"], 5);
    b.save_cursor_pos(9, 1);
    assert_eq!(b.cursor(), (2, 1));
}

#[test]
fn enter_at_end_of_line_appends_empty_line() {
    let mut b = make(&["abc"], 24);
    b.save_cursor_pos(3, 0);
    assert_eq!(b.newline(), Redraw::Full);
    assert_eq!(b.lines(), &doc(&["abc", ""]));
    assert_eq!(b.cursor(), (0, 1));
    assert_eq!(b.scroll_pos(), 0);
}

#[test]
fn enter_in_middle_splits_line() {
    let mut b = make(&["hello world", "x"], 24);
    b.save_cursor_pos(5, 0);
    b.newline();
    assert_eq!(b.lines(), &doc(&["hello", " world", "x"]));
    assert_eq!(b.cursor(), (0, 1));
}

#[test]
fn enter_on_bottom_row_scrolls() {
    let mut b = make(&["a", "b"], 2);
    b.move_cursor_v(1);
    assert_eq!(b.newline(), Redraw::Full);
    assert_eq!(b.lines(), &doc(&["a", "", "b"]));
    assert_eq!(b.cursor(), (0, 1));
    assert_eq!(b.scroll_pos(), 1);
}

#[test]
fn enter_onto_bottom_row_without_scroll_needs_no_repaint() {
    let mut b = make(&["a", "b"], 2);
    assert_eq!(b.newline(), Redraw::Cursor);
    assert_eq!(b.cursor(), (0, 1));
    assert_eq!(b.scroll_pos(), 0);
}

#[test]
fn newline_after_inserts_given_line() {
    let mut b = make(&["a", "c"], 10);
    b.newline_after("b".to_string());
    assert_eq!(b.lines(), &doc(&["a", "b", "c"]));
    assert_eq!(b.cursor(), (0, 1));
}

#[test]
fn backspace_at_line_start_joins_lines() {
    let mut b = make(&["ab", "cd"], 24);
    b.move_cursor_v(1);
    assert_eq!(b.delete_newline_before(), Redraw::Full);
    assert_eq!(b.lines(), &doc(&["abcd"]));
    assert_eq!(b.cursor(), (2, 0));
}

#[test]
fn delete_newline_before_on_first_line_is_noop() {
    let mut b = make(&["ab", "cd"], 24);
    assert_eq!(b.delete_newline_before(), Redraw::Cursor);
    assert_eq!(b.lines(), &doc(&["ab", "cd"]));
}

#[test]
fn delete_newline_before_at_top_row_scrolls_up() {
    let mut b = make(&["a", "b", "c"], 1);
    b.move_cursor_v(2);
    assert_eq!(b.scroll_pos(), 2);
    b.delete_newline_before();
    assert_eq!(b.lines(), &doc(&["a", "bc"]));
    assert_eq!(b.scroll_pos(), 1);
    assert_eq!(b.cursor(), (1, 0));
}

#[test]
fn delete_newline_after_joins_next_line() {
    let mut b = make(&["ab", "cd", "ef"], 24);
    b.save_cursor_pos(1, 0);
    assert_eq!(b.delete_newline_after(), Redraw::Full);
    assert_eq!(b.lines(), &doc(&["abcd", "ef"]));
    assert_eq!(b.cursor(), (1, 0));
}

#[test]
fn delete_newline_after_on_last_line_is_noop() {
    let mut b = make(&["ab", "cd"], 24);
    b.move_cursor_v(1);
    assert_eq!(b.delete_newline_after(), Redraw::Cursor);
    assert_eq!(b.lines(), &doc(&["ab", "cd"]));
}

#[test]
fn split_then_join_restores_line() {
    let mut b = make(&["first", "hello world", "last"], 24);
    b.move_cursor_v(1);
    b.save_cursor_pos(3, 1);
    b.newline();
    assert_eq!(b.lines(), &doc(&["first", "hel", "lo world", "last"]));
    b.move_cursor_v(-1);
    b.delete_newline_after();
    assert_eq!(b.lines(), &doc(&["first", "hello world", "last"]));
}

#[test]
fn scroll_clamps_both_ways() {
    let mut b = make(&["1", "2", "3", "4", "5"], 2);
    assert_eq!(b.scroll(-1), Redraw::Cursor);
    assert_eq!(b.scroll_pos(), 0);
    assert_eq!(b.scroll(2), Redraw::Full);
    assert_eq!(b.scroll_pos(), 2);
    assert_eq!(b.scroll(isize::MAX), Redraw::Full);
    assert_eq!(b.scroll_pos(), 3);
    assert_eq!(b.scroll(1), Redraw::Cursor);
    assert_eq!(b.scroll_pos(), 3);
    assert_eq!(b.scroll(isize::MIN), Redraw::Full);
    assert_eq!(b.scroll_pos(), 0);
    assert_eq!(b.scroll(0), Redraw::Cursor);
}

#[test]
fn scroll_on_short_document_stays_at_top() {
    let mut b = make(&["1", "2"], 10);
    assert_eq!(b.scroll(5), Redraw::Cursor);
    assert_eq!(b.scroll_pos(), 0);
}

#[test]
fn scroll_clamps_column_to_new_line() {
    let mut b = make(&["abcdef", "ab", "c"], 1);
    b.save_cursor_pos(6, 0);
    b.scroll(1);
    assert_eq!(b.cursor(), (2, 0));
    assert_eq!(b.get_line().as_str(), "ab");
}

#[test]
fn cursor_clamps_after_line_shortened() {
    let mut b = make(&["abcdef"], 5);
    b.save_cursor_pos(6, 0);
    b.get_line().truncate(2);
    assert_eq!(b.cursor(), (2, 0));
    assert_eq!(b.lines(), &doc(&["ab"]));
}

#[test]
fn resize_moves_cursor_row_into_view() {
    let mut b = make(&["a", "b", "c", "d"], 4);
    b.move_cursor_v(3);
    b.resize(40, 2);
    assert_eq!(b.height(), 2);
    assert_eq!(b.cursor(), (0, 1));
    assert_eq!(b.scroll_pos(), 0);
    b.resize(40, 10);
    assert_eq!(b.cursor(), (0, 1));
}

#[test]
fn visible_lines_are_the_viewport_slice() {
    let mut b = make(&["1", "2", "3", "4", "5"], 2);
    assert_eq!(b.visible_lines(2), doc(&["1", "2"]));
    b.scroll(2);
    assert_eq!(b.visible_lines(2), doc(&["3", "4"]));
    assert_eq!(b.visible_lines(10), doc(&["3", "4", "5"]));
    assert_eq!(b.widget().lines(1), doc(&["3"]));
    assert_eq!(b.visible_lines(0), doc(&[]));
}

#[test]
fn command_sequence_keeps_one_line() {
    let mut b = make(&["a", "b", "c"], 2);
    let cmds = [
        EditorCmd::DeleteNewlineAfter,
        EditorCmd::DeleteNewlineAfter,
        EditorCmd::DeleteNewlineAfter,
        EditorCmd::DeleteNewlineBefore,
        EditorCmd::MoveCursor(1),
        EditorCmd::JumpToEnd,
    ];
    for c in cmds {
        b.apply(c);
        assert!(b.lines().len() >= 1);
    }
    assert_eq!(b.lines(), &doc(&["abc"]));
    b.apply(EditorCmd::Newline);
    b.apply(EditorCmd::Newline);
    assert_eq!(b.lines(), &doc(&["", "", "abc"]));
    assert_eq!(b.cursor(), (0, 1));
    assert_eq!(b.scroll_pos(), 1);
    b.apply(EditorCmd::JumpToStart);
    assert_eq!(b.scroll_pos(), 0);
    b.apply(EditorCmd::Resize(10, 1));
    assert_eq!(b.height(), 1);
    assert_eq!(b.cursor(), (0, 0));
    assert_eq!(b.apply(EditorCmd::Save), Redraw::Cursor);
    assert_eq!(b.apply(EditorCmd::Exit), Redraw::Cursor);
    assert_eq!(b.lines(), &doc(&["", "", "abc"]));
}

#[test]
fn columns_count_characters() {
    let mut b = make(&["héllo"], 5);
    b.save_cursor_pos(2, 0);
    b.newline();
    assert_eq!(b.lines(), &doc(&["hé", "llo"]));
}
