use pine::buffer::LineBuffer;
use pine::editor::{Command, CursorController};

fn chars(s: &str) -> Vec<char> {
    s.chars().collect()
}

fn open(s: &str, size: (u16, u16)) -> CursorController {
    CursorController::open_text(&chars(s), size, String::from("t.txt"))
}

fn doc(ed: &CursorController) -> Vec<String> {
    let mut out = Vec::new();
    for row in 0..ed.line_count() {
        out.push(ed.line(row).into_iter().collect());
    }
    out
}

fn check_invariant(ed: &CursorController) {
    // The coordinate invariant: the buffer position is valid and the screen
    // position lies inside the drawing rectangle.
    let row = ed.buffer_row();
    assert!(row < ed.line_count());
    assert!(ed.buffer_col() <= ed.line_length(row));
    assert!(ed.screen_x() < ed.width());
    assert!(ed.screen_y() < ed.height());
    assert_eq!(ed.buffer_row(), ed.row_offset() + ed.screen_y());
    assert_eq!(ed.buffer_col(), ed.column_offset() + ed.screen_x());
}

#[test]
fn fresh_empty_document() {
    let ed = CursorController::new(LineBuffer::new(), (80, 24), String::from("t.txt"));
    assert_eq!(doc(&ed), vec![String::new()]);
    assert_eq!(ed.buffer_row(), 0);
    assert_eq!(ed.buffer_col(), 0);
    assert_eq!(ed.width(), 80);
    assert_eq!(ed.height(), 20);
    assert!(!ed.is_done());
    assert_eq!(ed.name().as_str(), "t.txt");
    check_invariant(&ed);
}

#[test]
fn typing_enter_typing() {
    // Empty file created fresh; typing "hi", Enter, "x" gives two lines.
    let mut ed = CursorController::new(LineBuffer::new(), (80, 24), String::from("t.txt"));
    ed.apply(Command::InsertChar('h'));
    ed.apply(Command::InsertChar('i'));
    ed.apply(Command::Enter);
    ed.apply(Command::InsertChar('x'));
    assert_eq!(doc(&ed), vec!["hi".to_string(), "x".to_string()]);
    assert_eq!(ed.buffer_row(), 1);
    assert_eq!(ed.buffer_col(), 1);
    check_invariant(&ed);
}

#[test]
fn backspace_merges_lines() {
    // Document ["abc", "def"], cursor at row 1 col 0: Backspace merges.
    let mut ed = open("abc\ndef", (80, 24));
    ed.apply(Command::ArrowDown);
    assert_eq!(ed.buffer_row(), 1);
    assert_eq!(ed.buffer_col(), 0);
    ed.apply(Command::Backspace);
    assert_eq!(doc(&ed), vec!["abcdef".to_string()]);
    assert_eq!(ed.buffer_row(), 0);
    assert_eq!(ed.buffer_col(), 3);
    check_invariant(&ed);
}

#[test]
fn backspace_deletes_char() {
    let mut ed = open("abc", (80, 24));
    ed.apply(Command::ArrowRight);
    ed.apply(Command::ArrowRight);
    ed.apply(Command::Backspace);
    assert_eq!(doc(&ed), vec!["ac".to_string()]);
    assert_eq!(ed.buffer_col(), 1);
    check_invariant(&ed);
}

#[test]
fn backspace_at_origin_is_noop() {
    let mut ed = open("abc", (80, 24));
    ed.apply(Command::Backspace);
    assert_eq!(doc(&ed), vec!["abc".to_string()]);
    assert_eq!(ed.buffer_row(), 0);
    assert_eq!(ed.buffer_col(), 0);
    check_invariant(&ed);
}

#[test]
fn horizontal_scroll_on_right_overflow() {
    // Viewport width 10, cursor at col 9 moving right: the offset takes the
    // overflow and the screen column clamps to the edge.
    let mut ed = open("0123456789x", (10, 24));
    for _ in 0..9 {
        ed.apply(Command::ArrowRight);
    }
    assert_eq!(ed.buffer_col(), 9);
    assert_eq!(ed.screen_x(), 9);
    assert_eq!(ed.column_offset(), 0);
    ed.apply(Command::ArrowRight);
    assert_eq!(ed.column_offset(), 1);
    assert_eq!(ed.screen_x(), 9);
    assert_eq!(ed.buffer_col(), 10);
    check_invariant(&ed);
}

#[test]
fn preferred_column_is_sticky() {
    // From col 2 of a 2-character line, ArrowUp onto a 10-character line
    // lands at col 2, not at the line's end.
    let mut ed = open("0123456789\nab", (80, 24));
    ed.apply(Command::ArrowDown);
    ed.apply(Command::ArrowRight);
    ed.apply(Command::ArrowRight);
    assert_eq!(ed.buffer_col(), 2);
    ed.apply(Command::ArrowUp);
    assert_eq!(ed.buffer_row(), 0);
    assert_eq!(ed.buffer_col(), 2);
    check_invariant(&ed);
}

#[test]
fn preferred_column_restored_after_short_line() {
    let mut ed = open("long line here\nab\nanother long one", (80, 24));
    for _ in 0..7 {
        ed.apply(Command::ArrowRight);
    }
    assert_eq!(ed.buffer_col(), 7);
    ed.apply(Command::ArrowDown);
    assert_eq!(ed.buffer_col(), 2);
    ed.apply(Command::ArrowDown);
    assert_eq!(ed.buffer_col(), 7);
    check_invariant(&ed);
}

#[test]
fn vertical_scroll_at_bottom_edge() {
    // Height is the terminal height minus the four reserved rows.
    let mut ed = open("a\nb\nc\nd\ne\nf\ng\nh", (80, 8));
    assert_eq!(ed.height(), 4);
    for _ in 0..3 {
        ed.apply(Command::ArrowDown);
    }
    assert_eq!(ed.row_offset(), 0);
    assert_eq!(ed.screen_y(), 3);
    ed.apply(Command::ArrowDown);
    assert_eq!(ed.row_offset(), 1);
    assert_eq!(ed.screen_y(), 3);
    assert_eq!(ed.buffer_row(), 4);
    ed.apply(Command::ArrowUp);
    ed.apply(Command::ArrowUp);
    ed.apply(Command::ArrowUp);
    ed.apply(Command::ArrowUp);
    assert_eq!(ed.row_offset(), 0);
    assert_eq!(ed.screen_y(), 0);
    assert_eq!(ed.buffer_row(), 0);
    check_invariant(&ed);
}

#[test]
fn arrows_stop_at_document_edges() {
    let mut ed = open("ab\ncd", (80, 24));
    ed.apply(Command::ArrowUp);
    assert_eq!(ed.buffer_row(), 0);
    ed.apply(Command::ArrowDown);
    ed.apply(Command::ArrowDown);
    assert_eq!(ed.buffer_row(), 1);
    ed.apply(Command::ArrowRight);
    ed.apply(Command::ArrowRight);
    ed.apply(Command::ArrowRight);
    assert_eq!(ed.buffer_col(), 2);
    check_invariant(&ed);
}

#[test]
fn left_clamps_at_column_zero() {
    let mut ed = open("abcd", (80, 24));
    ed.apply(Command::ArrowRight);
    assert_eq!(ed.preferred_column(), 1);
    ed.apply(Command::ArrowLeft);
    assert_eq!(ed.buffer_col(), 0);
    assert_eq!(ed.preferred_column(), 0);
    ed.apply(Command::ArrowLeft);
    assert_eq!(ed.buffer_col(), 0);
    assert_eq!(ed.preferred_column(), 0);
    check_invariant(&ed);
}

#[test]
fn tab_is_four_spaces() {
    let mut ed = open("ab", (80, 24));
    ed.apply(Command::ArrowRight);
    ed.apply(Command::InsertTab);
    assert_eq!(doc(&ed), vec!["a    b".to_string()]);
    assert_eq!(ed.buffer_col(), 5);
    assert_eq!(ed.preferred_column(), 5);
    check_invariant(&ed);
}

#[test]
fn enter_resets_horizontal_scroll() {
    let mut ed = open("0123456789abcdef", (10, 24));
    for _ in 0..12 {
        ed.apply(Command::ArrowRight);
    }
    assert_eq!(ed.column_offset(), 3);
    ed.apply(Command::Enter);
    assert_eq!(ed.column_offset(), 0);
    assert_eq!(ed.screen_x(), 0);
    assert_eq!(ed.buffer_row(), 1);
    assert_eq!(ed.buffer_col(), 0);
    assert_eq!(doc(&ed), vec!["0123456789ab".to_string(), "cdef".to_string()]);
    check_invariant(&ed);
}

#[test]
fn split_then_merge_restores_line_and_column() {
    // Enter then Backspace at the resulting boundary restores the document
    // and the cursor's buffer position.
    let mut ed = open("hello world", (80, 24));
    for _ in 0..5 {
        ed.apply(Command::ArrowRight);
    }
    ed.apply(Command::Enter);
    assert_eq!(doc(&ed), vec!["hello".to_string(), " world".to_string()]);
    ed.apply(Command::Backspace);
    assert_eq!(doc(&ed), vec!["hello world".to_string()]);
    assert_eq!(ed.buffer_row(), 0);
    assert_eq!(ed.buffer_col(), 5);
    check_invariant(&ed);
}

#[test]
fn resize_reclamps_so_cursor_stays_visible() {
    // Shrinking the height below row_offset + height re-clamps the vertical
    // scroll so the cursor row remains visible.
    let mut ed = open("a\nb\nc\nd\ne\nf\ng\nh\ni\nj\nk\nl", (80, 10));
    assert_eq!(ed.height(), 6);
    for _ in 0..7 {
        ed.apply(Command::ArrowDown);
    }
    assert_eq!(ed.buffer_row(), 7);
    assert_eq!(ed.row_offset(), 2);
    assert_eq!(ed.screen_y(), 5);
    ed.apply(Command::Resize(80, 8));
    assert_eq!(ed.height(), 4);
    assert_eq!(ed.buffer_row(), 7);
    assert_eq!(ed.row_offset(), 4);
    assert_eq!(ed.screen_y(), 3);
    assert!(ed.screen_y() < ed.height());
    check_invariant(&ed);
}

#[test]
fn resize_growing_keeps_offsets() {
    let mut ed = open("a\nb\nc", (80, 24));
    ed.apply(Command::ArrowDown);
    ed.apply(Command::Resize(100, 40));
    assert_eq!(ed.width(), 100);
    assert_eq!(ed.height(), 36);
    assert_eq!(ed.buffer_row(), 1);
    assert_eq!(ed.row_offset(), 0);
    check_invariant(&ed);
}

#[test]
fn quit_marks_done_and_keeps_document() {
    let mut ed = open("keep me", (80, 24));
    assert!(!ed.is_done());
    ed.apply(Command::Quit);
    assert!(ed.is_done());
    assert_eq!(doc(&ed), vec!["keep me".to_string()]);
    let out: String = ed.to_text().into_iter().collect();
    assert_eq!(out, "keep me");
}

#[test]
fn load_quit_save_is_identity() {
    let text = "alpha\nbeta\n\ngamma\n";
    let mut ed = open(text, (80, 24));
    ed.apply(Command::Quit);
    let out: String = ed.to_text().into_iter().collect();
    assert_eq!(out, text);
}

#[test]
fn invariant_holds_through_command_storm() {
    let mut ed = open("first line\nsecond\n3rd\n\nlast one", (12, 9));
    let storm = [
        Command::ArrowDown,
        Command::InsertChar('q'),
        Command::ArrowRight,
        Command::Enter,
        Command::ArrowUp,
        Command::InsertTab,
        Command::Backspace,
        Command::ArrowLeft,
        Command::ArrowDown,
        Command::ArrowDown,
        Command::ArrowDown,
        Command::ArrowDown,
        Command::ArrowDown,
        Command::Backspace,
        Command::Resize(7, 6),
        Command::InsertChar('z'),
        Command::ArrowUp,
        Command::Enter,
        Command::Resize(30, 20),
        Command::ArrowRight,
    ];
    for cmd in storm {
        ed.apply(cmd);
        check_invariant(&ed);
    }
}
