//! Splitting text into lines at line breaks.
//!
//! A line ends at a line feed. A carriage return directly before that line
//! feed belongs to the line break; any other carriage return is an ordinary
//! character. Text after the last line feed is a line of its own unless it is
//! empty, so a final line break is optional.

use vstd::prelude::*;

verus! {

/// `String::push` appends one character to the end of the string.
pub assume_specification[ String::push ](s: &mut String, ch: char)
    ensures
        final(s)@ == old(s)@.push(ch),
;

/// A terminated line without the carriage return that belonged to its line break.
pub open spec fn without_return(line: Seq<char>) -> Seq<char> {
    if line.len() > 0 && line.last() == '\r' {
        line.drop_last()
    } else {
        line
    }
}

/// The lines of a text.
pub open spec fn lines_of(text: Seq<char>) -> Seq<Seq<char>>
    decreases text.len(),
{
    if text.len() == 0 {
        Seq::empty()
    } else {
        let found = text.index_of_first('\n');
        if found is Some && 0 <= found->0 < text.len() {
            seq![without_return(text.take(found->0))] + lines_of(text.skip(found->0 + 1))
        } else {
            seq![text]
        }
    }
}

/// The character sequences of a list of strings.
pub open spec fn line_texts(lines: Seq<String>) -> Seq<Seq<char>> {
    lines.map_values(|line: String| line@)
}

/// Text without a line feed is a single line, or none when it is empty.
pub proof fn lemma_unbroken_text(text: Seq<char>)
    requires
        !text.contains('\n'),
    ensures
        lines_of(text) == if text.len() == 0 {
            Seq::<Seq<char>>::empty()
        } else {
            seq![text]
        },
{
    text.index_of_first_ensures('\n');
}

/// A line feed after text that holds none closes that text as the first line.
pub proof fn lemma_first_line(head: Seq<char>, tail: Seq<char>)
    requires
        !head.contains('\n'),
    ensures
        lines_of(head + seq!['\n'] + tail) == seq![without_return(head)] + lines_of(tail),
{
    let text = head + seq!['\n'] + tail;
    let at = head.len() as int;
    assert(text[at] == '\n');
    text.index_of_first_ensures('\n');
    let found = text.index_of_first('\n');
    assert(found is Some);
    if found->0 < at {
        assert(head[found->0] == text[found->0]);
        assert(head.contains('\n'));
    }
    assert(found->0 == at);
    assert(text.take(at) =~= head);
    assert(text.skip(at + 1) =~= tail);
}

/// No line holds a line feed.
pub proof fn lemma_lines_hold_no_line_feed(text: Seq<char>)
    ensures
        forall|k: int|
            0 <= k < lines_of(text).len() ==> !(#[trigger] lines_of(text)[k]).contains('\n'),
    decreases text.len(),
{
    if text.len() > 0 {
        text.index_of_first_ensures('\n');
        let found = text.index_of_first('\n');
        if found is Some {
            let head = text.take(found->0);
            let tail = text.skip(found->0 + 1);
            lemma_lines_hold_no_line_feed(tail);
            let first = without_return(head);
            assert forall|j: int| 0 <= j < first.len() implies first[j] != '\n' by {
                assert(first[j] == text[j]);
            }
            assert forall|k: int| 0 <= k < lines_of(text).len() implies !(#[trigger] lines_of(
                text,
            )[k]).contains('\n') by {
                if k > 0 {
                    assert(lines_of(text)[k] == lines_of(tail)[k - 1]);
                }
            }
        }
    }
}

/// Splits `text` into its lines.
pub fn split_lines(text: &str) -> (lines: Vec<String>)
    ensures
        line_texts(lines@) == lines_of(text@),
{
    let mut lines: Vec<String> = Vec::new();
    let mut line = String::new();
    // A carriage return is held back until the next character shows whether
    // it belongs to a line break.
    let mut held_return = false;
    let ghost mut pending: Seq<char> = Seq::empty();
    proof {
        assert(pending + text@.skip(0) =~= text@);
        assert(line_texts(lines@) =~= Seq::<Seq<char>>::empty());
    }
    for c in it: text.chars()
        invariant
            it.seq() == text@,
            pending == line@ + (if held_return {
                seq!['\r']
            } else {
                Seq::<char>::empty()
            }),
            !pending.contains('\n'),
            !held_return ==> (line@.len() == 0 || line@.last() != '\r'),
            lines_of(text@) == line_texts(lines@) + lines_of(pending + text@.skip(it.index())),
    {
        let ghost index = it.index();
        let ghost rest = text@.skip(index + 1);
        let ghost before = pending;
        let ghost done = line_texts(lines@);
        proof {
            assert(text@.skip(index) =~= seq![c] + rest);
        }
        if c == '\n' {
            proof {
                assert(before + text@.skip(index) =~= before + seq!['\n'] + rest);
                lemma_first_line(before, rest);
                assert(without_return(before) =~= line@);
            }
            lines.push(line);
            line = String::new();
            held_return = false;
            proof {
                pending = Seq::empty();
                assert(line_texts(lines@) =~= done + seq![without_return(before)]);
                assert(pending + rest =~= rest);
                assert(pending =~= line@ + Seq::<char>::empty());
            }
        } else {
            if held_return {
                line.push('\r');
            }
            if c == '\r' {
                held_return = true;
            } else {
                line.push(c);
                held_return = false;
            }
            proof {
                pending = before.push(c);
                assert(pending =~= line@ + (if held_return {
                    seq!['\r']
                } else {
                    Seq::<char>::empty()
                }));
                assert(pending + rest =~= before + text@.skip(index));
                assert forall|k: int| 0 <= k < pending.len() implies pending[k] != '\n' by {
                    if k < before.len() {
                        assert(before.contains(before[k]));
                    }
                }
            }
        }
    }
    proof {
        assert(text@.skip(text@.len() as int) =~= Seq::<char>::empty());
        assert(pending + Seq::<char>::empty() =~= pending);
        lemma_unbroken_text(pending);
    }
    if held_return {
        line.push('\r');
    }
    let ghost done = line_texts(lines@);
    proof {
        assert(line@ =~= pending);
    }
    if !line.as_str().is_empty() {
        lines.push(line);
        proof {
            assert(line_texts(lines@) =~= done + seq![pending]);
        }
    }
    lines
}

} // verus!
