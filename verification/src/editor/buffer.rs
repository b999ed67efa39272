//! The text buffer: the lines of a document, fixed once it is built.

use super::graphemes::{count_graphemes, grapheme_count};
use super::lines::{line_texts, lines_of, split_lines};
use vstd::prelude::*;

verus! {

/// What a buffer holds, as plain sequences.
pub struct BufferView {
    /// The characters of each line, in document order.
    pub lines: Seq<Seq<char>>,
    /// The path the buffer was loaded from, if it has one.
    pub file_path: Option<Seq<char>>,
}

/// A read-only sequence of lines, with the path it came from.
pub struct Buffer {
    lines: Vec<String>,
    /// The grapheme-cluster count of each line, measured once.
    lengths: Vec<usize>,
    file_path: Option<String>,
}

/// Machine-sized lengths as natural numbers.
pub open spec fn as_nats(lengths: Seq<usize>) -> Seq<nat> {
    lengths.map_values(|length: usize| length as nat)
}

/// The grapheme-cluster count of each of the given lines.
pub open spec fn lengths_of(lines: Seq<Seq<char>>) -> Seq<nat> {
    lines.map_values(|line: Seq<char>| grapheme_count(line))
}

/// The characters of an optional string.
pub open spec fn optional_text(text: Option<String>) -> Option<Seq<char>> {
    match text {
        Some(text) => Some(text@),
        None => None,
    }
}

impl View for Buffer {
    type V = BufferView;

    closed spec fn view(&self) -> BufferView {
        BufferView { lines: line_texts(self.lines@), file_path: optional_text(self.file_path) }
    }
}

/// The lines of a buffer.
pub fn buffer_lines(buffer: &Buffer) -> (lines: &Vec<String>)
    ensures
        line_texts(lines@) == buffer@.lines,
{
    &buffer.lines
}

impl Buffer {
    /// Every line has its measured length beside it.
    #[verifier::type_invariant]
    spec fn measured(self) -> bool {
        as_nats(self.lengths@) == lengths_of(line_texts(self.lines@))
    }

    /// The number of lines.
    pub open spec fn spec_line_count(&self) -> nat {
        self@.lines.len()
    }

    /// The grapheme-cluster count of every line, in document order.
    pub open spec fn line_lengths(&self) -> Seq<nat> {
        lengths_of(self@.lines)
    }

    /// The grapheme-cluster count of the line at `row`; 0 where there is no such line.
    pub open spec fn spec_line_length(&self, row: nat) -> nat {
        if row < self@.lines.len() {
            grapheme_count(self@.lines[row as int])
        } else {
            0
        }
    }

    /// An empty buffer without a path.
    pub fn new() -> (buffer: Buffer)
        ensures
            buffer@.lines == Seq::<Seq<char>>::empty(),
            buffer@.file_path is None,
    {
        Self::from_lines(Vec::new(), None)
    }

    /// A buffer of the given lines.
    pub fn from_lines(lines: Vec<String>, file_path: Option<String>) -> (buffer: Buffer)
        ensures
            buffer@.lines == line_texts(lines@),
            buffer@.file_path == optional_text(file_path),
    {
        let mut lengths: Vec<usize> = Vec::new();
        let mut row: usize = 0;
        while row < lines.len()
            invariant
                row <= lines.len(),
                lengths.len() == row,
                forall|i: int|
                    0 <= i < row ==> lengths[i] as nat == grapheme_count(#[trigger] lines[i]@),
            decreases lines.len() - row,
        {
            let length = count_graphemes(lines[row].as_str());
            lengths.push(length);
            row = row + 1;
        }
        proof {
            assert(as_nats(lengths@) =~= lengths_of(line_texts(lines@)));
        }
        Buffer { lines, lengths, file_path }
    }

    /// The buffer for a document at `file_path`, given what reading it
    /// produced: its lines where the content was read, no lines where it
    /// could not be. The path is kept either way.
    pub fn load(file_path: String, content: Option<String>) -> (buffer: Buffer)
        ensures
            buffer@.file_path == Some(file_path@),
            buffer@.lines == match content {
                Some(text) => lines_of(text@),
                None => Seq::<Seq<char>>::empty(),
            },
    {
        let lines = match content {
            Some(text) => split_lines(text.as_str()),
            None => Vec::new(),
        };
        Self::from_lines(lines, Some(file_path))
    }

    /// The path the buffer was loaded from, if it has one.
    pub fn file_path(&self) -> (file_path: &Option<String>)
        ensures
            optional_text(*file_path) == self@.file_path,
    {
        &self.file_path
    }

    /// The number of lines.
    pub fn line_count(&self) -> (count: usize)
        ensures
            count == self.spec_line_count(),
    {
        self.lines.len()
    }

    /// Whether the buffer has no lines.
    pub fn is_empty(&self) -> (empty: bool)
        ensures
            empty <==> self.spec_line_count() == 0,
    {
        self.lines.len() == 0
    }

    /// The grapheme-cluster count of the line at `row`, or 0 if `row` is out of range.
    pub fn line_length(&self, row: usize) -> (length: usize)
        ensures
            length == self.spec_line_length(row as nat),
    {
        proof {
            use_type_invariant(self);
            let measured = as_nats(self.lengths@);
            assert(measured.len() == self.lengths@.len());
            assert(measured.len() == self@.lines.len());
            if row < self.lengths@.len() {
                assert(measured[row as int] == self.lengths@[row as int] as nat);
                assert(measured[row as int] == grapheme_count(self@.lines[row as int]));
            }
        }
        if row < self.lengths.len() {
            self.lengths[row]
        } else {
            0
        }
    }

    /// The grapheme-cluster count of every line, in document order.
    pub fn lengths(&self) -> (lengths: &Vec<usize>)
        ensures
            as_nats(lengths@) == self.line_lengths(),
    {
        proof {
            use_type_invariant(self);
        }
        &self.lengths
    }
}

} // verus!
