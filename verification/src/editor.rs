//! The cursor controller: interprets editing and navigation commands against
//! the line buffer and the terminal state, and is the only place that mutates
//! either. Every command is atomic and total over well-formed states; the
//! abstract transition is the spec function [`step`], and [`CursorController::apply`]
//! is proved to implement it exactly.

use vstd::prelude::*;

use crate::buffer::LineBuffer;
use crate::screen::{clamped_offset, clamped_screen, Terminal, RESERVED_ROWS};

verus! {

/// A discrete editing or navigation command, decoded from one input event.
#[derive(Clone, Copy)]
pub enum Command {
    InsertChar(char),
    InsertTab,
    Backspace,
    Enter,
    ArrowUp,
    ArrowDown,
    ArrowLeft,
    ArrowRight,
    Resize(u16, u16),
    Quit,
}

/// The abstract editor state: the document, the scroll offsets, the drawing
/// dimensions, the on-screen cursor and its remembered column, and whether
/// shutdown was requested.
#[verifier::ext_equal]
pub struct EdState {
    pub lines: Seq<Seq<char>>,
    pub col_off: nat,
    pub row_off: nat,
    pub width: nat,
    pub height: nat,
    pub sx: nat,
    pub sy: nat,
    pub pref: nat,
    pub done: bool,
}

impl EdState {
    /// The buffer-space row the cursor denotes.
    pub open spec fn row(self) -> int {
        (self.row_off + self.sy) as int
    }

    /// The buffer-space column the cursor denotes.
    pub open spec fn col(self) -> int {
        (self.col_off + self.sx) as int
    }

    /// The central consistency invariant: the document has at least one line,
    /// the cursor's screen coordinates lie inside the drawing rectangle, the
    /// buffer row it denotes is a valid line index, and the buffer column is
    /// at most that line's length.
    pub open spec fn wf(self) -> bool {
        &&& self.lines.len() >= 1
        &&& self.width >= 1
        &&& self.height >= 1
        &&& self.sx < self.width
        &&& self.sy < self.height
        &&& self.row() < self.lines.len()
        &&& self.col() <= self.lines[self.row()].len()
    }

    /// The state with the cursor moved to buffer column `target`, scrolling
    /// horizontally by the overflow if needed.
    pub open spec fn with_col(self, target: nat) -> EdState {
        EdState {
            col_off: clamped_offset(self.col_off, self.width, target),
            sx: clamped_screen(self.col_off, self.width, target),
            ..self
        }
    }

    /// The state with the cursor moved to buffer row `target`, scrolling
    /// vertically by the overflow if needed.
    pub open spec fn with_row(self, target: nat) -> EdState {
        EdState {
            row_off: clamped_offset(self.row_off, self.height, target),
            sy: clamped_screen(self.row_off, self.height, target),
            ..self
        }
    }
}

/// Inserting a character before the cursor: the cursor moves right by one and
/// the remembered column follows it.
pub open spec fn step_insert(s: EdState, c: char) -> EdState {
    let target = (s.col() + 1) as nat;
    EdState {
        lines: s.lines.update(s.row(), s.lines[s.row()].insert(s.col(), c)),
        pref: target,
        ..s.with_col(target)
    }
}

/// A tab is four spaces inserted in sequence.
pub open spec fn step_tab(s: EdState) -> EdState {
    step_insert(step_insert(step_insert(step_insert(s, ' '), ' '), ' '), ' ')
}

/// Backspace: at column 0 of a later row, the row is merged into the one
/// above and the cursor lands at the seam; elsewhere on a row, the character
/// left of the cursor is removed; at the very start of the document, nothing.
pub open spec fn step_backspace(s: EdState) -> EdState {
    if s.col() == 0 && s.row() > 0 {
        let target = s.lines[s.row() - 1].len();
        let merged = s.lines.update(s.row() - 1, s.lines[s.row() - 1] + s.lines[s.row()]).remove(
            s.row(),
        );
        EdState {
            lines: merged,
            pref: target,
            ..s.with_col(target).with_row((s.row() - 1) as nat)
        }
    } else if s.col() > 0 {
        let target = (s.col() - 1) as nat;
        EdState {
            lines: s.lines.update(s.row(), s.lines[s.row()].remove(s.col() - 1)),
            pref: target,
            ..s.with_col(target)
        }
    } else {
        s
    }
}

/// Enter splits the current line at the cursor; the cursor moves to column 0
/// of the new row, the horizontal scroll resets, and the remembered column
/// becomes 0.
pub open spec fn step_enter(s: EdState) -> EdState {
    let split = s.lines.update(s.row(), s.lines[s.row()].take(s.col())).insert(
        s.row() + 1,
        s.lines[s.row()].skip(s.col()),
    );
    EdState {
        lines: split,
        col_off: 0,
        sx: 0,
        pref: 0,
        ..s.with_row((s.row() + 1) as nat)
    }
}

/// Vertical movement lands on the remembered column, shortened to the new
/// line's length; at the edge of the document it does nothing.
pub open spec fn step_up(s: EdState) -> EdState {
    if s.row() > 0 {
        let trow = (s.row() - 1) as nat;
        let target = if s.pref <= s.lines[trow as int].len() {
            s.pref
        } else {
            s.lines[trow as int].len()
        };
        s.with_col(target).with_row(trow)
    } else {
        s
    }
}

/// Mirror of [`step_up`], towards the end of the document.
pub open spec fn step_down(s: EdState) -> EdState {
    if s.row() + 1 < s.lines.len() {
        let trow = (s.row() + 1) as nat;
        let target = if s.pref <= s.lines[trow as int].len() {
            s.pref
        } else {
            s.lines[trow as int].len()
        };
        s.with_col(target).with_row(trow)
    } else {
        s
    }
}

/// Left clamps at column 0; the remembered column follows the cursor.
pub open spec fn step_left(s: EdState) -> EdState {
    if s.col() > 0 {
        let target = (s.col() - 1) as nat;
        EdState { pref: target, ..s.with_col(target) }
    } else {
        EdState { pref: 0, ..s }
    }
}

/// Right stops at the end of the line; the remembered column follows.
pub open spec fn step_right(s: EdState) -> EdState {
    if s.col() < s.lines[s.row()].len() {
        let target = (s.col() + 1) as nat;
        EdState { pref: target, ..s.with_col(target) }
    } else {
        s
    }
}

/// Resize keeps the buffer position fixed and re-clamps both offsets against
/// the new drawing dimensions, so the cursor stays visible.
pub open spec fn step_resize(s: EdState, w: nat, h: nat) -> EdState {
    let resized = EdState { width: w, height: (h - RESERVED_ROWS) as nat, ..s };
    resized.with_col(s.col() as nat).with_row(s.row() as nat)
}

/// The transition each command makes on the abstract state.
pub open spec fn step(s: EdState, cmd: Command) -> EdState {
    match cmd {
        Command::InsertChar(c) => step_insert(s, c),
        Command::InsertTab => step_tab(s),
        Command::Backspace => step_backspace(s),
        Command::Enter => step_enter(s),
        Command::ArrowUp => step_up(s),
        Command::ArrowDown => step_down(s),
        Command::ArrowLeft => step_left(s),
        Command::ArrowRight => step_right(s),
        Command::Resize(w, h) => step_resize(s, w as nat, h as nat),
        Command::Quit => EdState { done: true, ..s },
    }
}

/// Machine limits a command needs so its arithmetic fits in `usize`; every
/// state a real buffer can take satisfies them.
pub open spec fn cmd_ok(s: EdState, cmd: Command) -> bool {
    match cmd {
        Command::InsertChar(_) => s.lines[s.row()].len() + 1 <= usize::MAX,
        Command::InsertTab => s.lines[s.row()].len() + 4 <= usize::MAX,
        Command::Backspace => s.col() == 0 && s.row() > 0 ==> s.lines[s.row() - 1].len()
            + s.lines[s.row()].len() <= usize::MAX,
        Command::Enter => s.lines.len() + 1 <= usize::MAX,
        Command::Resize(w, h) => w >= 1 && h > RESERVED_ROWS,
        _ => true,
    }
}

/// Inserting one character preserves the consistency invariant.
pub proof fn lemma_insert_wf(s: EdState, c: char)
    requires
        s.wf(),
    ensures
        step_insert(s, c).wf(),
{
}

/// The central invariant law: every command maps a well-formed state to a
/// well-formed state, so the cursor's buffer position stays inside the
/// document and its screen position stays inside the drawing rectangle.
pub proof fn lemma_step_preserves_wf(s: EdState, cmd: Command)
    requires
        s.wf(),
        cmd matches Command::Resize(w, h) ==> w >= 1 && h > RESERVED_ROWS,
    ensures
        step(s, cmd).wf(),
{
    match cmd {
        Command::InsertChar(c) => {
            lemma_insert_wf(s, c);
        },
        Command::InsertTab => {
            lemma_insert_wf(s, ' ');
            lemma_insert_wf(step_insert(s, ' '), ' ');
            lemma_insert_wf(step_insert(step_insert(s, ' '), ' '), ' ');
            lemma_insert_wf(step_insert(step_insert(step_insert(s, ' '), ' '), ' '), ' ');
        },
        Command::Backspace => {
            if s.col() == 0 && s.row() > 0 {
                let r = s.row();
                let merged = step_backspace(s).lines;
                assert(merged.len() == s.lines.len() - 1);
                assert(merged[r - 1] == s.lines[r - 1] + s.lines[r]);
            }
        },
        Command::Enter => {
            let r = s.row();
            let split = step_enter(s).lines;
            assert(split.len() == s.lines.len() + 1);
            assert(split[r + 1] == s.lines[r].skip(s.col()));
        },
        Command::ArrowUp => {},
        Command::ArrowDown => {},
        Command::ArrowLeft => {},
        Command::ArrowRight => {},
        Command::Resize(w, h) => {},
        Command::Quit => {},
    }
}

/// Splitting a line with Enter and immediately merging back with Backspace at
/// the resulting boundary restores the document and the cursor's buffer
/// position.
pub proof fn lemma_enter_backspace(s: EdState)
    requires
        s.wf(),
    ensures
        step(step(s, Command::Enter), Command::Backspace).lines == s.lines,
        step(step(s, Command::Enter), Command::Backspace).col() == s.col(),
        step(step(s, Command::Enter), Command::Backspace).row() == s.row(),
{
    let e = step_enter(s);
    lemma_step_preserves_wf(s, Command::Enter);
    let r = s.row();
    assert(e.row() == r + 1);
    assert(e.col() == 0);
    assert(e.lines[r] == s.lines[r].take(s.col()));
    assert(e.lines[r + 1] == s.lines[r].skip(s.col()));
    let b = step_backspace(e);
    assert(e.lines[r] + e.lines[r + 1] =~= s.lines[r]);
    assert(b.lines =~~= s.lines);
    assert(b.col() == s.col());
    assert(b.row() == s.row());
}

/// The editor: owns the line buffer and the terminal state, and is the only
/// component that mutates either. Commands flow through [`Self::apply`].
pub struct CursorController {
    buffer: LineBuffer,
    term: Terminal,
    done: bool,
}

impl View for CursorController {
    type V = EdState;

    closed spec fn view(&self) -> EdState {
        EdState {
            lines: self.buffer@,
            col_off: self.term.viewport.column_offset as nat,
            row_off: self.term.viewport.row_offset as nat,
            width: self.term.viewport.width as nat,
            height: self.term.viewport.height as nat,
            sx: self.term.cursor.screen_x as nat,
            sy: self.term.cursor.screen_y as nat,
            pref: self.term.cursor.preferred_column as nat,
            done: self.done,
        }
    }
}

impl CursorController {
    /// The display name the editor was opened under.
    pub closed spec fn display_name(&self) -> Seq<char> {
        self.term.name@
    }

    /// A fresh editor over `buffer` for a terminal of `size` cells: nothing
    /// scrolled, cursor at the origin.
    pub fn new(buffer: LineBuffer, size: (u16, u16), name: String) -> (ed: CursorController)
        requires
            buffer.wf(),
            size.0 >= 1,
            size.1 > RESERVED_ROWS,
        ensures
            ed@.lines == buffer@,
            ed@.col_off == 0,
            ed@.row_off == 0,
            ed@.width == size.0,
            ed@.height == size.1 - RESERVED_ROWS,
            ed@.sx == 0,
            ed@.sy == 0,
            ed@.pref == 0,
            ed@.done == false,
            ed@.wf(),
            ed.display_name() == name@,
    {
        let term = Terminal::new(size, name);
        CursorController { buffer, term, done: false }
    }

    /// A fresh editor over the document read from a flat text.
    pub fn open_text(input: &Vec<char>, size: (u16, u16), name: String) -> (ed: CursorController)
        requires
            size.0 >= 1,
            size.1 > RESERVED_ROWS,
        ensures
            ed@.lines == crate::text::lines_of(input@),
            ed@.col_off == 0,
            ed@.row_off == 0,
            ed@.width == size.0,
            ed@.height == size.1 - RESERVED_ROWS,
            ed@.sx == 0,
            ed@.sy == 0,
            ed@.pref == 0,
            ed@.done == false,
            ed@.wf(),
            ed.display_name() == name@,
    {
        let buffer = LineBuffer::from_text(input);
        CursorController::new(buffer, size, name)
    }

    fn do_insert(&mut self, c: char)
        requires
            old(self)@.wf(),
            old(self)@.lines[old(self)@.row()].len() + 1 <= usize::MAX,
        ensures
            final(self)@ == step_insert(old(self)@, c),
            final(self)@.wf(),
            final(self).display_name() == old(self).display_name(),
    {
        proof {
            self.buffer.lemma_fits_usize();
        }
        let row = self.term.viewport.row_offset + self.term.cursor.screen_y;
        let col = self.term.viewport.column_offset + self.term.cursor.screen_x;
        self.buffer.insert_char(row, col, c);
        self.term.cursor.screen_x = self.term.viewport.scroll_to_col(col + 1);
        self.term.cursor.preferred_column = col + 1;
        proof {
            lemma_insert_wf(old(self)@, c);
            assert(self@ =~~= step_insert(old(self)@, c));
        }
    }

    fn do_tab(&mut self)
        requires
            old(self)@.wf(),
            old(self)@.lines[old(self)@.row()].len() + 4 <= usize::MAX,
        ensures
            final(self)@ == step_tab(old(self)@),
            final(self)@.wf(),
            final(self).display_name() == old(self).display_name(),
    {
        let ghost s0 = self@;
        proof {
            assert(step_insert(s0, ' ').row() == s0.row());
            assert(step_insert(s0, ' ').lines[s0.row()].len() == s0.lines[s0.row()].len() + 1);
        }
        self.do_insert(' ');
        let ghost s1 = self@;
        proof {
            assert(step_insert(s1, ' ').row() == s1.row());
            assert(step_insert(s1, ' ').lines[s1.row()].len() == s1.lines[s1.row()].len() + 1);
        }
        self.do_insert(' ');
        let ghost s2 = self@;
        proof {
            assert(step_insert(s2, ' ').row() == s2.row());
            assert(step_insert(s2, ' ').lines[s2.row()].len() == s2.lines[s2.row()].len() + 1);
        }
        self.do_insert(' ');
        self.do_insert(' ');
    }

    fn do_backspace(&mut self)
        requires
            old(self)@.wf(),
            old(self)@.col() == 0 && old(self)@.row() > 0 ==> old(self)@.lines[old(self)@.row()
                - 1].len() + old(self)@.lines[old(self)@.row()].len() <= usize::MAX,
        ensures
            final(self)@ == step_backspace(old(self)@),
            final(self)@.wf(),
            final(self).display_name() == old(self).display_name(),
    {
        proof {
            self.buffer.lemma_fits_usize();
        }
        let row = self.term.viewport.row_offset + self.term.cursor.screen_y;
        let col = self.term.viewport.column_offset + self.term.cursor.screen_x;
        if col == 0 {
            if row > 0 {
                let target = self.buffer.line_length(row - 1);
                self.buffer.merge_with_previous(row);
                self.term.cursor.screen_x = self.term.viewport.scroll_to_col(target);
                self.term.cursor.screen_y = self.term.viewport.scroll_to_row(row - 1);
                self.term.cursor.preferred_column = target;
                proof {
                    lemma_step_preserves_wf(old(self)@, Command::Backspace);
                    assert(self@ =~~= step_backspace(old(self)@));
                }
            }
        } else {
            self.buffer.delete_char(row, col - 1);
            self.term.cursor.screen_x = self.term.viewport.scroll_to_col(col - 1);
            self.term.cursor.preferred_column = col - 1;
            proof {
                lemma_step_preserves_wf(old(self)@, Command::Backspace);
                assert(self@ =~~= step_backspace(old(self)@));
            }
        }
    }

    fn do_enter(&mut self)
        requires
            old(self)@.wf(),
            old(self)@.lines.len() + 1 <= usize::MAX,
        ensures
            final(self)@ == step_enter(old(self)@),
            final(self)@.wf(),
            final(self).display_name() == old(self).display_name(),
    {
        proof {
            self.buffer.lemma_fits_usize();
        }
        let row = self.term.viewport.row_offset + self.term.cursor.screen_y;
        let col = self.term.viewport.column_offset + self.term.cursor.screen_x;
        self.buffer.split_line(row, col);
        self.term.viewport.column_offset = 0;
        self.term.cursor.screen_x = 0;
        self.term.cursor.screen_y = self.term.viewport.scroll_to_row(row + 1);
        self.term.cursor.preferred_column = 0;
        proof {
            lemma_step_preserves_wf(old(self)@, Command::Enter);
            assert(self@ =~~= step_enter(old(self)@));
        }
    }

    fn do_up(&mut self)
        requires
            old(self)@.wf(),
        ensures
            final(self)@ == step_up(old(self)@),
            final(self)@.wf(),
            final(self).display_name() == old(self).display_name(),
    {
        proof {
            self.buffer.lemma_fits_usize();
        }
        let row = self.term.viewport.row_offset + self.term.cursor.screen_y;
        if row > 0 {
            let tlen = self.buffer.line_length(row - 1);
            let pref = self.term.cursor.preferred_column;
            let target = if pref <= tlen {
                pref
            } else {
                tlen
            };
            self.term.cursor.screen_x = self.term.viewport.scroll_to_col(target);
            self.term.cursor.screen_y = self.term.viewport.scroll_to_row(row - 1);
            proof {
                lemma_step_preserves_wf(old(self)@, Command::ArrowUp);
                assert(self@ =~~= step_up(old(self)@));
            }
        }
    }

    fn do_down(&mut self)
        requires
            old(self)@.wf(),
        ensures
            final(self)@ == step_down(old(self)@),
            final(self)@.wf(),
            final(self).display_name() == old(self).display_name(),
    {
        let rows = self.buffer.line_count();
        let row = self.term.viewport.row_offset + self.term.cursor.screen_y;
        if row + 1 < rows {
            let tlen = self.buffer.line_length(row + 1);
            let pref = self.term.cursor.preferred_column;
            let target = if pref <= tlen {
                pref
            } else {
                tlen
            };
            self.term.cursor.screen_x = self.term.viewport.scroll_to_col(target);
            self.term.cursor.screen_y = self.term.viewport.scroll_to_row(row + 1);
            proof {
                lemma_step_preserves_wf(old(self)@, Command::ArrowDown);
                assert(self@ =~~= step_down(old(self)@));
            }
        }
    }

    fn do_left(&mut self)
        requires
            old(self)@.wf(),
        ensures
            final(self)@ == step_left(old(self)@),
            final(self)@.wf(),
            final(self).display_name() == old(self).display_name(),
    {
        proof {
            self.buffer.lemma_fits_usize();
        }
        let col = self.term.viewport.column_offset + self.term.cursor.screen_x;
        if col > 0 {
            self.term.cursor.screen_x = self.term.viewport.scroll_to_col(col - 1);
            self.term.cursor.preferred_column = col - 1;
            proof {
                assert(self@ =~~= step_left(old(self)@));
            }
        } else {
            self.term.cursor.preferred_column = 0;
            proof {
                assert(self@ =~~= step_left(old(self)@));
            }
        }
    }

    fn do_right(&mut self)
        requires
            old(self)@.wf(),
        ensures
            final(self)@ == step_right(old(self)@),
            final(self)@.wf(),
            final(self).display_name() == old(self).display_name(),
    {
        proof {
            self.buffer.lemma_fits_usize();
        }
        let row = self.term.viewport.row_offset + self.term.cursor.screen_y;
        let len = self.buffer.line_length(row);
        let col = self.term.viewport.column_offset + self.term.cursor.screen_x;
        if col < len {
            self.term.cursor.screen_x = self.term.viewport.scroll_to_col(col + 1);
            self.term.cursor.preferred_column = col + 1;
            proof {
                lemma_step_preserves_wf(old(self)@, Command::ArrowRight);
                assert(self@ =~~= step_right(old(self)@));
            }
        }
    }

    fn do_resize(&mut self, w: u16, h: u16)
        requires
            old(self)@.wf(),
            w >= 1,
            h > RESERVED_ROWS,
        ensures
            final(self)@ == step_resize(old(self)@, w as nat, h as nat),
            final(self)@.wf(),
            final(self).display_name() == old(self).display_name(),
    {
        proof {
            self.buffer.lemma_fits_usize();
        }
        let row = self.term.viewport.row_offset + self.term.cursor.screen_y;
        let col = self.term.viewport.column_offset + self.term.cursor.screen_x;
        self.term.viewport.width = w as usize;
        self.term.viewport.height = (h - RESERVED_ROWS) as usize;
        self.term.cursor.screen_x = self.term.viewport.scroll_to_col(col);
        self.term.cursor.screen_y = self.term.viewport.scroll_to_row(row);
        proof {
            lemma_step_preserves_wf(old(self)@, Command::Resize(w, h));
            assert(self@ =~~= step_resize(old(self)@, w as nat, h as nat));
        }
    }

    /// Processes one command atomically: the state changes exactly as the
    /// abstract transition [`step`] says, and the consistency invariant is
    /// preserved.
    pub fn apply(&mut self, cmd: Command)
        requires
            old(self)@.wf(),
            cmd_ok(old(self)@, cmd),
        ensures
            final(self)@ == step(old(self)@, cmd),
            final(self)@.wf(),
            final(self).display_name() == old(self).display_name(),
    {
        match cmd {
            Command::InsertChar(c) => self.do_insert(c),
            Command::InsertTab => self.do_tab(),
            Command::Backspace => self.do_backspace(),
            Command::Enter => self.do_enter(),
            Command::ArrowUp => self.do_up(),
            Command::ArrowDown => self.do_down(),
            Command::ArrowLeft => self.do_left(),
            Command::ArrowRight => self.do_right(),
            Command::Resize(w, h) => self.do_resize(w, h),
            Command::Quit => {
                self.done = true;
                proof {
                    assert(self@ =~~= step(old(self)@, cmd));
                }
            },
        }
    }

    /// Number of lines in the document.
    pub fn line_count(&self) -> (n: usize)
        ensures
            n == self@.lines.len(),
    {
        self.buffer.line_count()
    }

    /// Length of the line at `row`.
    pub fn line_length(&self, row: usize) -> (n: usize)
        requires
            row < self@.lines.len(),
        ensures
            n == self@.lines[row as int].len(),
    {
        self.buffer.line_length(row)
    }

    /// The character at buffer position (`row`, `col`).
    pub fn char_at(&self, row: usize, col: usize) -> (c: char)
        requires
            row < self@.lines.len(),
            col < self@.lines[row as int].len(),
        ensures
            c == self@.lines[row as int][col as int],
    {
        self.buffer.char_at(row, col)
    }

    /// A copy of the line at `row`.
    pub fn line(&self, row: usize) -> (out: Vec<char>)
        requires
            row < self@.lines.len(),
        ensures
            out@ == self@.lines[row as int],
    {
        let len = self.buffer.line_length(row);
        let mut out: Vec<char> = Vec::new();
        let mut i: usize = 0;
        while i < len
            invariant
                i <= len,
                row < self@.lines.len(),
                len == self@.lines[row as int].len(),
                out@ == self@.lines[row as int].take(i as int),
            decreases len - i,
        {
            out.push(self.buffer.char_at(row, i));
            proof {
                assert(self@.lines[row as int].take(i + 1) =~= self@.lines[row as int].take(
                    i as int,
                ).push(self@.lines[row as int][i as int]));
            }
            i += 1;
        }
        proof {
            assert(self@.lines[row as int].take(len as int) =~= self@.lines[row as int]);
        }
        out
    }

    /// The buffer-space row the cursor denotes.
    pub fn buffer_row(&self) -> (r: usize)
        requires
            self@.wf(),
        ensures
            r == self@.row(),
    {
        proof {
            self.buffer.lemma_fits_usize();
        }
        self.term.viewport.row_offset + self.term.cursor.screen_y
    }

    /// The buffer-space column the cursor denotes.
    pub fn buffer_col(&self) -> (r: usize)
        requires
            self@.wf(),
        ensures
            r == self@.col(),
    {
        proof {
            self.buffer.lemma_fits_usize();
        }
        self.term.viewport.column_offset + self.term.cursor.screen_x
    }

    /// The cursor's screen column within the drawing region.
    pub fn screen_x(&self) -> (r: usize)
        ensures
            r == self@.sx,
    {
        self.term.cursor.screen_x
    }

    /// The cursor's screen row within the drawing region.
    pub fn screen_y(&self) -> (r: usize)
        ensures
            r == self@.sy,
    {
        self.term.cursor.screen_y
    }

    /// The horizontal scroll offset.
    pub fn column_offset(&self) -> (r: usize)
        ensures
            r == self@.col_off,
    {
        self.term.viewport.column_offset
    }

    /// The vertical scroll offset.
    pub fn row_offset(&self) -> (r: usize)
        ensures
            r == self@.row_off,
    {
        self.term.viewport.row_offset
    }

    /// The remembered column vertical movement returns to.
    pub fn preferred_column(&self) -> (r: usize)
        ensures
            r == self@.pref,
    {
        self.term.cursor.preferred_column
    }

    /// Width of the drawing region.
    pub fn width(&self) -> (r: usize)
        ensures
            r == self@.width,
    {
        self.term.viewport.width
    }

    /// Height of the drawing region.
    pub fn height(&self) -> (r: usize)
        ensures
            r == self@.height,
    {
        self.term.viewport.height
    }

    /// Whether a quit command was processed.
    pub fn is_done(&self) -> (r: bool)
        ensures
            r == self@.done,
    {
        self.done
    }

    /// The display name the editor was opened under.
    pub fn name(&self) -> (r: &String)
        ensures
            r@ == self.display_name(),
    {
        &self.term.name
    }

    /// The document serialized back to a flat text, lines rejoined with `'\n'`.
    pub fn to_text(&self) -> (out: Vec<char>)
        requires
            self@.wf(),
        ensures
            out@ == crate::text::text_of(self@.lines),
    {
        self.buffer.to_text()
    }
}

} // verus!

