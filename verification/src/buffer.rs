//! The line buffer: the document as an ordered sequence of lines, each an
//! ordered sequence of characters, with line- and character-level mutation
//! primitives. It knows nothing of screen geometry; callers guarantee the
//! documented bounds.

use vstd::prelude::*;

use crate::text;

verus! {

/// A document: always at least one line (the empty document is one empty
/// line). Lines are 0-indexed; positions within a line range over
/// `[0, line.len()]` inclusive.
pub struct LineBuffer {
    lines: Vec<Vec<char>>,
}

impl View for LineBuffer {
    type V = Seq<Seq<char>>;

    closed spec fn view(&self) -> Seq<Seq<char>> {
        self.lines.deep_view()
    }
}

impl LineBuffer {
    /// A document is well formed when it has at least one line.
    pub open spec fn wf(&self) -> bool {
        self@.len() >= 1
    }

    /// The document lives in memory, so its line count and each line's
    /// length fit in `usize`.
    pub proof fn lemma_fits_usize(&self)
        ensures
            self@.len() <= usize::MAX,
            forall|i: int| 0 <= i < self@.len() ==> (#[trigger] self@[i].len()) <= usize::MAX,
    {
        assert(self.lines@.len() == self.lines.len());
        assert forall|i: int| 0 <= i < self@.len() implies (#[trigger] self@[i].len())
            <= usize::MAX by {
            assert(self.lines@[i]@.len() == self.lines@[i].len());
            assert(self@[i] == self.lines@[i]@);
        }
    }

    /// An empty document: one empty line.
    pub fn new() -> (buf: LineBuffer)
        ensures
            buf@ =~~= seq![Seq::<char>::empty()],
            buf.wf(),
    {
        let mut lines: Vec<Vec<char>> = Vec::new();
        lines.push(Vec::new());
        proof {
            assert(lines.deep_view() =~~= seq![Seq::<char>::empty()]);
        }
        LineBuffer { lines }
    }

    /// The document read from a flat text, split on line breaks.
    pub fn from_text(input: &Vec<char>) -> (buf: LineBuffer)
        ensures
            buf@ == text::lines_of(input@),
            buf.wf(),
    {
        let lines = text::decode(input);
        proof {
            text::lemma_lines_of_nonempty(input@);
        }
        LineBuffer { lines }
    }

    /// The document serialized back to a flat text, lines rejoined with `'\n'`.
    pub fn to_text(&self) -> (out: Vec<char>)
        requires
            self.wf(),
        ensures
            out@ == text::text_of(self@),
    {
        text::encode(&self.lines)
    }

    /// Number of lines; at least one in a well-formed document.
    pub fn line_count(&self) -> (n: usize)
        ensures
            n == self@.len(),
    {
        self.lines.len()
    }

    /// Length of the line at `row`.
    pub fn line_length(&self, row: usize) -> (n: usize)
        requires
            row < self@.len(),
        ensures
            n == self@[row as int].len(),
    {
        self.lines[row].len()
    }

    /// The character at position `col` of the line at `row`.
    pub fn char_at(&self, row: usize, col: usize) -> (c: char)
        requires
            row < self@.len(),
            col < self@[row as int].len(),
        ensures
            c == self@[row as int][col as int],
    {
        self.lines[row][col]
    }

    /// Inserts `ch` before position `col` in the line at `row`.
    pub fn insert_char(&mut self, row: usize, col: usize, ch: char)
        requires
            row < old(self)@.len(),
            col <= old(self)@[row as int].len(),
            old(self)@[row as int].len() < usize::MAX,
        ensures
            final(self)@ == old(self)@.update(
                row as int,
                old(self)@[row as int].insert(col as int, ch),
            ),
    {
        let ghost prior = self@;
        let mut line = self.lines.remove(row);
        line.insert(col, ch);
        self.lines.insert(row, line);
        proof {
            assert(self@ =~~= prior.update(row as int, prior[row as int].insert(col as int, ch)));
        }
    }

    /// Removes the character at `col` in the line at `row`, shifting the
    /// rest of the line left.
    pub fn delete_char(&mut self, row: usize, col: usize)
        requires
            row < old(self)@.len(),
            col < old(self)@[row as int].len(),
        ensures
            final(self)@ == old(self)@.update(
                row as int,
                old(self)@[row as int].remove(col as int),
            ),
    {
        let ghost prior = self@;
        let mut line = self.lines.remove(row);
        line.remove(col);
        self.lines.insert(row, line);
        proof {
            assert(self@ =~~= prior.update(row as int, prior[row as int].remove(col as int)));
        }
    }

    /// Splits the line at `row` at position `col`: the prefix `[0, col)`
    /// stays at `row`, the suffix becomes a new line right after it.
    pub fn split_line(&mut self, row: usize, col: usize)
        requires
            row < old(self)@.len(),
            col <= old(self)@[row as int].len(),
            old(self)@.len() < usize::MAX,
        ensures
            final(self)@ == old(self)@.update(row as int, old(self)@[row as int].take(col as int))
                .insert(row + 1, old(self)@[row as int].skip(col as int)),
    {
        let ghost prior = self@;
        let mut line = self.lines.remove(row);
        let tail = line.split_off(col);
        self.lines.insert(row, line);
        self.lines.insert(row + 1, tail);
        proof {
            assert(self@ =~~= prior.update(row as int, prior[row as int].take(col as int)).insert(
                row + 1,
                prior[row as int].skip(col as int),
            ));
        }
    }

    /// Appends the line at `row` to the end of the line above it and removes
    /// the line at `row`.
    pub fn merge_with_previous(&mut self, row: usize)
        requires
            0 < row < old(self)@.len(),
            old(self)@[row - 1].len() + old(self)@[row as int].len() <= usize::MAX,
        ensures
            final(self)@ == old(self)@.update(row - 1, old(self)@[row - 1] + old(self)@[row as int])
                .remove(row as int),
    {
        let ghost prior = self@;
        let mut tail = self.lines.remove(row);
        let mut line = self.lines.remove(row - 1);
        line.append(&mut tail);
        self.lines.insert(row - 1, line);
        proof {
            assert(self@ =~~= prior.update(row - 1, prior[row - 1] + prior[row as int]).remove(
                row as int,
            ));
        }
    }
}

} // verus!
