//! Turning a flat text into a sequence of lines and back.
//!
//! A document is a sequence of lines split on `'\n'`: a text with `k` line
//! breaks always yields `k + 1` lines, so even the empty text is one empty
//! line. Joining the lines with `'\n'` restores the original text exactly.

use vstd::prelude::*;

verus! {

/// The lines of a text, split on `'\n'`. The empty text is one empty line;
/// every `'\n'` ends the current line and opens a new one.
pub open spec fn lines_of(text: Seq<char>) -> Seq<Seq<char>>
    decreases text.len(),
{
    if text.len() == 0 {
        seq![Seq::<char>::empty()]
    } else if text.last() == '\n' {
        lines_of(text.drop_last()).push(Seq::<char>::empty())
    } else {
        let prior = lines_of(text.drop_last());
        prior.update(prior.len() - 1, prior.last().push(text.last()))
    }
}

/// The text of a sequence of lines, joined with `'\n'`.
pub open spec fn text_of(lines: Seq<Seq<char>>) -> Seq<char>
    decreases lines.len(),
{
    if lines.len() == 0 {
        Seq::<char>::empty()
    } else if lines.len() == 1 {
        lines[0]
    } else {
        text_of(lines.drop_last()) + seq!['\n'] + lines.last()
    }
}

/// Splitting always produces at least one line.
pub proof fn lemma_lines_of_nonempty(text: Seq<char>)
    ensures
        lines_of(text).len() >= 1,
    decreases text.len(),
{
    if text.len() != 0 {
        lemma_lines_of_nonempty(text.drop_last());
    }
}

/// Round trip: splitting a text into lines and joining them back with `'\n'`
/// restores the original text, character for character.
pub proof fn lemma_text_round_trip(text: Seq<char>)
    ensures
        text_of(lines_of(text)) == text,
    decreases text.len(),
{
    if text.len() == 0 {
        assert(text_of(lines_of(text)) =~= text);
    } else {
        let prefix = text.drop_last();
        lemma_text_round_trip(prefix);
        lemma_lines_of_nonempty(prefix);
        let prior = lines_of(prefix);
        if text.last() == '\n' {
            let whole = prior.push(Seq::<char>::empty());
            assert(whole.drop_last() =~= prior);
            assert(text_of(whole) =~= text);
        } else {
            let c = text.last();
            let whole = prior.update(prior.len() - 1, prior.last().push(c));
            if prior.len() == 1 {
                assert(text_of(whole) == whole[0]);
                assert(whole[0] =~= text);
            } else {
                assert(whole.drop_last() =~= prior.drop_last());
                assert(whole.last() == prior.last().push(c));
                let joined = text_of(prior.drop_last()) + seq!['\n'] + prior.last();
                assert(text_of(prior) == joined);
                assert(text_of(whole) == text_of(prior.drop_last()) + seq!['\n']
                    + prior.last().push(c));
                assert(text_of(whole) =~= joined.push(c));
                assert(text =~= prefix.push(c));
            }
        }
    }
}

/// Splits a text into its lines.
pub fn decode(text: &Vec<char>) -> (lines: Vec<Vec<char>>)
    ensures
        lines.deep_view() == lines_of(text@),
        lines.len() >= 1,
{
    let mut lines: Vec<Vec<char>> = Vec::new();
    lines.push(Vec::new());
    proof {
        assert(lines.deep_view() =~~= lines_of(text@.take(0)));
    }
    let n = text.len();
    let mut i: usize = 0;
    while i < n
        invariant
            i <= n,
            n == text@.len(),
            lines.len() >= 1,
            lines.deep_view() == lines_of(text@.take(i as int)),
        decreases n - i,
    {
        let ghost prior = lines.deep_view();
        proof {
            assert(text@.take(i + 1).drop_last() =~= text@.take(i as int));
            assert(text@.take(i + 1).last() == text@[i as int]);
        }
        let c = text[i];
        if c == '\n' {
            lines.push(Vec::new());
            proof {
                assert(lines.deep_view() =~~= prior.push(Seq::<char>::empty()));
            }
        } else {
            let k = lines.len() - 1;
            let mut tail = lines.remove(k);
            tail.push(c);
            lines.push(tail);
            proof {
                assert(lines.deep_view() =~~= prior.update(
                    prior.len() - 1,
                    prior.last().push(c),
                ));
            }
        }
        i += 1;
    }
    proof {
        assert(text@.take(n as int) =~= text@);
    }
    lines
}

/// Joins lines back into a flat text with `'\n'` between them.
pub fn encode(lines: &Vec<Vec<char>>) -> (text: Vec<char>)
    requires
        lines.len() >= 1,
    ensures
        text@ == text_of(lines.deep_view()),
{
    let mut text: Vec<char> = Vec::new();
    let rows = lines.len();
    let mut i: usize = 0;
    while i < rows
        invariant
            i <= rows,
            rows == lines.len(),
            text@ == text_of(lines.deep_view().take(i as int)),
        decreases rows - i,
    {
        let ghost prior = text@;
        if i > 0 {
            text.push('\n');
        }
        let line = &lines[i];
        let cols = line.len();
        let mut j: usize = 0;
        while j < cols
            invariant
                j <= cols,
                cols == line@.len(),
                line@ == lines@[i as int]@,
                i < rows,
                rows == lines.len(),
                text@ == if i == 0 {
                    line@.take(j as int)
                } else {
                    prior + seq!['\n'] + line@.take(j as int)
                },
            decreases cols - j,
        {
            text.push(line[j]);
            proof {
                assert(line@.take(j + 1) =~= line@.take(j as int).push(line@[j as int]));
            }
            j += 1;
        }
        proof {
            assert(line@.take(cols as int) =~= line@);
            let upto = lines.deep_view().take(i + 1);
            assert(upto.drop_last() =~= lines.deep_view().take(i as int));
            assert(upto.last() == line@);
            if i == 0 {
                assert(text@ =~= text_of(upto));
            } else {
                assert(text@ =~= text_of(upto));
            }
        }
        i += 1;
    }
    proof {
        assert(lines.deep_view().take(rows as int) =~= lines.deep_view());
    }
    text
}

} // verus!
