//! Draw instructions: what a frame shows, in device pixels.

use crate::base::math::{Bounds, Position};
use vstd::prelude::*;

verus! {

/// An instruction to draw one run of text.
#[derive(Debug, Clone, PartialEq, Eq)]
pub struct DrawText {
    /// The text to draw.
    pub text: String,
    /// Where its baseline starts, in device pixels.
    pub at: Position<i64>,
}

/// The draw instructions of one frame.
#[derive(Debug, Clone, PartialEq, Eq)]
pub struct Frame {
    /// The label with the file name first, then one text per visible row, top to bottom.
    pub texts: Vec<DrawText>,
    /// The filled rectangle that marks the cursor's cell.
    pub cursor: Bounds<i64>,
}

/// The text shown in a row below the last line.
pub open spec fn filler_text() -> Seq<char> {
    "~"@
}

/// The label shown for a buffer without a path.
pub open spec fn unnamed_label() -> Seq<char> {
    "[No Name]"@
}

/// The label of a buffer: its path, or a placeholder where it has none.
pub open spec fn label_of(file_path: Option<Seq<char>>) -> Seq<char> {
    match file_path {
        Some(path) => path,
        None => unnamed_label(),
    }
}

/// The text of the row that shows line `index`: that line, or the filler
/// where the buffer has no such line.
pub open spec fn row_text(lines: Seq<Seq<char>>, index: int) -> Seq<char> {
    if 0 <= index < lines.len() {
        lines[index]
    } else {
        filler_text()
    }
}

/// The number of rows that a viewport `height` pixels high shows, whole or
/// in part, with rows `cell_height` pixels high.
pub open spec fn visible_rows(height: u32, cell_height: u32) -> int {
    (height + cell_height - 1) / (cell_height as int)
}

/// The line shown in the top row at the vertical scroll offset `scroll_y`.
pub open spec fn first_visible_line(scroll_y: i64, cell_height: u32) -> int {
    if scroll_y <= 0 {
        0
    } else {
        (scroll_y as int) / (cell_height as int)
    }
}

} // verus!
