//! The text view: a buffer behind a scrollable viewport.

use super::buffer::{buffer_lines, Buffer, BufferView};
use super::lines::line_texts;
use super::render::{first_visible_line, label_of, row_text, visible_rows, DrawText};
use super::viewport::{revealed, scrolled, scrolled_by_cells, ViewportController, ViewportState};
use crate::base::math::{Bounds, Position, Size};
use crate::base::pixel::{clamp_px, saturate, CellMetrics};
use vstd::prelude::*;
use vstd::string::StringExecFns;

verus! {

/// A buffer and the viewport it is shown through.
pub struct TextView {
    buffer: Buffer,
    controller: ViewportController,
}

/// Where the label with the file name is drawn: flush with the right edge
/// of the viewport, one row below its top.
pub open spec fn label_position(
    viewport: Bounds<u32>,
    cell: CellMetrics,
    label_width: u32,
) -> Position<i64> {
    Position {
        x: clamp_px(viewport.pos.x + viewport.size.w - label_width),
        y: clamp_px(viewport.pos.y + cell.height()),
    }
}

/// Where the text of visible row `row` is drawn, counted from the top row 0.
pub open spec fn row_position(state: ViewportState, cell: CellMetrics, row: int) -> Position<i64> {
    let first = first_visible_line(state.scroll_offset.y, cell.height());
    Position {
        x: clamp_px(state.viewport.pos.x - state.scroll_offset.x),
        y: clamp_px(
            state.viewport.pos.y + first * cell.height() - state.scroll_offset.y + (row + 1)
                * cell.height(),
        ),
    }
}

/// Whether `texts` are the texts of a frame: at index 0 the label, then at
/// index `k` the text of the `k`-th row of the viewport from the top, for
/// every row that shows whole or in part. Row `k` shows line
/// `first + k - 1`, where `first` is the line in the top row.
pub open spec fn shows_frame(
    texts: Seq<DrawText>,
    buffer: BufferView,
    state: ViewportState,
    cell: CellMetrics,
    label_width: u32,
) -> bool {
    let rows = visible_rows(state.viewport.size.h, cell.height());
    let first = first_visible_line(state.scroll_offset.y, cell.height());
    &&& texts.len() == 1 + rows
    &&& texts[0].text@ == label_of(buffer.file_path)
    &&& texts[0].at == label_position(state.viewport, cell, label_width)
    &&& forall|k: int|
        1 <= k <= rows ==> (#[trigger] texts[k]).text@ == row_text(buffer.lines, first + k - 1)
            && texts[k].at == row_position(state, cell, k - 1)
}

impl TextView {
    /// The buffer shown.
    pub closed spec fn spec_buffer(&self) -> Buffer {
        self.buffer
    }

    /// The viewport and its scroll offset.
    pub closed spec fn spec_viewport(&self) -> ViewportState {
        self.controller@
    }

    /// A view of `buffer` through `viewport`, not scrolled.
    pub fn new(buffer: Buffer, viewport: Bounds<u32>) -> (view: TextView)
        ensures
            view.spec_buffer() == buffer,
            view.spec_viewport() == (ViewportState {
                viewport,
                scroll_offset: Position { x: 0, y: 0 },
            }),
    {
        TextView { buffer, controller: ViewportController::new(viewport) }
    }

    /// The buffer shown.
    pub fn buffer(&self) -> (buffer: &Buffer)
        ensures
            *buffer == self.spec_buffer(),
    {
        &self.buffer
    }

    /// Whether the buffer has no lines.
    pub fn buffer_empty(&self) -> (empty: bool)
        ensures
            empty <==> self.spec_buffer().spec_line_count() == 0,
    {
        self.buffer.is_empty()
    }

    /// The visible rectangle.
    pub fn viewport(&self) -> (viewport: Bounds<u32>)
        ensures
            viewport == self.spec_viewport().viewport,
    {
        self.controller.viewport()
    }

    /// Replaces the visible rectangle.
    pub fn set_viewport(&mut self, viewport: Bounds<u32>)
        ensures
            final(self).spec_buffer() == old(self).spec_buffer(),
            final(self).spec_viewport() == (ViewportState {
                viewport,
                scroll_offset: old(self).spec_viewport().scroll_offset,
            }),
    {
        self.controller.set_viewport(viewport);
    }

    /// The scroll offset.
    pub fn scroll_offset(&self) -> (offset: Position<i64>)
        ensures
            offset == self.spec_viewport().scroll_offset,
    {
        self.controller.scroll_offset()
    }

    /// Replaces the scroll offset.
    pub fn set_scroll_offset(&mut self, offset: Position<i64>)
        ensures
            final(self).spec_buffer() == old(self).spec_buffer(),
            final(self).spec_viewport() == (ViewportState {
                viewport: old(self).spec_viewport().viewport,
                scroll_offset: offset,
            }),
    {
        self.controller.set_scroll_offset(offset);
    }

    /// The grapheme-cluster count of line `line`, or 0 where there is no such line.
    pub fn line_len_at(&self, line: usize) -> (length: usize)
        ensures
            length == self.spec_buffer().spec_line_length(line as nat),
    {
        self.buffer.line_length(line)
    }

    /// The number of lines of the buffer.
    pub fn total_lines(&self) -> (count: usize)
        ensures
            count == self.spec_buffer().spec_line_count(),
    {
        self.buffer.line_count()
    }

    /// Replaces the size of the visible rectangle.
    pub fn resize(&mut self, new_size: Size<u32>)
        ensures
            final(self).spec_buffer() == old(self).spec_buffer(),
            final(self).spec_viewport() == (ViewportState {
                viewport: Bounds { pos: old(self).spec_viewport().viewport.pos, size: new_size },
                scroll_offset: old(self).spec_viewport().scroll_offset,
            }),
    {
        self.controller.resize(new_size);
    }

    /// Adds `delta` pixels to the scroll offset.
    pub fn scroll_by(&mut self, delta: Position<i64>)
        ensures
            final(self).spec_buffer() == old(self).spec_buffer(),
            final(self).spec_viewport() == scrolled(old(self).spec_viewport(), delta),
    {
        self.controller.scroll_by(delta);
    }

    /// Adds `delta` cells to the scroll offset.
    pub fn scroll_by_cells(&mut self, delta: Position<i64>, cell: CellMetrics)
        ensures
            final(self).spec_buffer() == old(self).spec_buffer(),
            final(self).spec_viewport() == scrolled_by_cells(old(self).spec_viewport(), delta, cell),
    {
        self.controller.scroll_by_cells(delta, cell);
    }

    /// Scrolls as far as it takes to bring `target` into the window.
    pub fn ensure_visible(&mut self, target: Bounds<i64>)
        ensures
            final(self).spec_buffer() == old(self).spec_buffer(),
            final(self).spec_viewport() == revealed(old(self).spec_viewport(), target),
    {
        self.controller.ensure_visible(target);
    }

    /// The text of the label: the path of the buffer, or a placeholder.
    pub fn label(&self) -> (label: String)
        ensures
            label@ == label_of(self.spec_buffer()@.file_path),
    {
        match self.buffer.file_path() {
            Some(path) => path.clone(),
            None => String::from_str("[No Name]"),
        }
    }

    /// The texts of a frame: at index 0 the label, `label_width` pixels
    /// wide, then at index `k` the text of the `k`-th row of the viewport
    /// from the top. A row below the last line shows the filler.
    pub fn render(&self, cell: CellMetrics, label_width: u32) -> (texts: Vec<DrawText>)
        ensures
            shows_frame(texts@, self.spec_buffer()@, self.spec_viewport(), cell, label_width),
    {
        let viewport = self.controller.viewport();
        let scroll = self.controller.scroll_offset();
        let lines = buffer_lines(&self.buffer);
        let height = cell.height();
        let rows: u64 = (viewport.size.h as u64 + height as u64 - 1) / height as u64;
        assert(rows <= viewport.size.h) by (nonlinear_arith)
            requires
                height >= 1,
                rows == (viewport.size.h + height - 1) / (height as int),
        ;
        let first: u64 = if scroll.y <= 0 {
            0
        } else {
            scroll.y as u64 / height as u64
        };
        let ghost state = self.spec_viewport();
        let ghost shown = self.spec_buffer()@.lines;
        let mut texts: Vec<DrawText> = Vec::new();
        texts.push(
            DrawText {
                text: self.label(),
                at: Position {
                    x: saturate(viewport.pos.x as i128 + viewport.size.w as i128 - label_width as i128),
                    y: saturate(viewport.pos.y as i128 + height as i128),
                },
            },
        );
        assert(0 <= first * height <= 0x7fff_ffff_ffff_ffff) by (nonlinear_arith)
            requires
                height >= 1,
                first == (if scroll.y <= 0 {
                    0
                } else {
                    scroll.y as int / height as int
                }),
                scroll.y <= 0x7fff_ffff_ffff_ffff,
        ;
        let top: i128 = viewport.pos.y as i128 + first as i128 * height as i128 - scroll.y as i128;
        let x = saturate(viewport.pos.x as i128 - scroll.x as i128);
        let mut row: u64 = 0;
        while row < rows
            invariant
                row <= rows,
                rows == visible_rows(viewport.size.h, height),
                rows <= 0xffff_ffff,
                first == first_visible_line(scroll.y, height),
                first <= 0x7fff_ffff_ffff_ffff,
                height == cell.height(),
                height >= 1,
                state == (ViewportState { viewport, scroll_offset: scroll }),
                shown == line_texts(lines@),
                top == viewport.pos.y + first * height - scroll.y,
                0 <= first * height <= 0x7fff_ffff_ffff_ffff,
                x == clamp_px(viewport.pos.x - scroll.x),
                texts.len() == row + 1,
                texts[0].text@ == label_of(self.spec_buffer()@.file_path),
                texts[0].at == label_position(viewport, cell, label_width),
                forall|k: int|
                    1 <= k <= row ==> (#[trigger] texts[k]).text@ == row_text(shown, first + k - 1)
                        && texts[k].at == row_position(state, cell, k - 1),
            decreases rows - row,
        {
            let index: u64 = first + row;
            let text = if index < lines.len() as u64 {
                lines[index as usize].clone()
            } else {
                String::from_str("~")
            };
            assert((row + 1) * height <= 0x1_0000_0000 * 0xffff_ffff) by (nonlinear_arith)
                requires
                    0 <= row < 0xffff_ffff,
                    0 <= height <= 0xffff_ffff,
            ;
            let y = saturate(top + (row as i128 + 1) * height as i128);
            texts.push(DrawText { text, at: Position { x, y } });
            row = row + 1;
        }
        texts
    }
}

} // verus!
