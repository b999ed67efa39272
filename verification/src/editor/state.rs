//! The editor: a text view, a cursor on its buffer and the size of a cell,
//! driven by commands and input events.

use super::buffer::Buffer;
use super::cursor::{
    capped, first_cell, in_bounds, step, CellPosition, Command, CursorModel, CursorState,
};
use super::input::{interpret, interpreted, Action, InputEvent};
use super::render::Frame;
use super::text_view::{shows_frame, TextView};
use super::viewport::{
    lemma_revealed_shows_target, revealed, scrolled, scrolled_by_cells, shows, ViewportState,
};
use crate::base::math::{Bounds, Position, Size};
use crate::base::pixel::{clamp_px, saturate, CellMetrics};
use vstd::prelude::*;

verus! {

/// What an editor holds that commands and events change.
pub struct EditorState {
    pub cursor: CursorState,
    pub viewport: ViewportState,
}

/// The editor state: the view of a buffer, the cursor and the cell metrics.
pub struct Editor {
    view: TextView,
    cursor: CursorModel,
    cell: CellMetrics,
}

/// The state after a command: the cursor moves, then the viewport scrolls
/// as far as it takes to show the cursor's cell.
pub open spec fn executed(
    state: EditorState,
    command: Command,
    lengths: Seq<nat>,
    cell: CellMetrics,
) -> EditorState {
    let page_rows = cell.spec_cells_in(state.viewport.viewport.size).h as nat;
    let cursor = step(state.cursor, command, lengths, page_rows);
    EditorState {
        cursor,
        viewport: revealed(state.viewport, cell.spec_cell_bounds(cursor.row, cursor.column)),
    }
}

/// The state after the window took a new size: the cursor is capped at the
/// cells that fit the new size, and the viewport takes the size.
pub open spec fn resized(state: EditorState, new_size: Size<u32>, cell: CellMetrics) -> EditorState {
    let cells = cell.spec_cells_in(new_size);
    EditorState {
        cursor: capped(state.cursor, cells.h as nat, cells.w as nat),
        viewport: ViewportState {
            viewport: Bounds { pos: state.viewport.viewport.pos, size: new_size },
            scroll_offset: state.viewport.scroll_offset,
        },
    }
}

/// The state after an action.
pub open spec fn applied(
    state: EditorState,
    action: Action,
    lengths: Seq<nat>,
    cell: CellMetrics,
) -> EditorState {
    match action {
        Action::Move(command) => executed(state, command, lengths, cell),
        Action::ScrollPixels(delta) => EditorState {
            cursor: state.cursor,
            viewport: scrolled(state.viewport, delta),
        },
        Action::ScrollCells(delta) => EditorState {
            cursor: state.cursor,
            viewport: scrolled_by_cells(state.viewport, delta, cell),
        },
        Action::Resize(new_size) => resized(state, new_size, cell),
    }
}

/// The state after an input event: that after the action it asks for, or
/// the same state where it asks for none.
pub open spec fn handled(
    state: EditorState,
    event: InputEvent,
    lengths: Seq<nat>,
    cell: CellMetrics,
) -> EditorState {
    match interpreted(event) {
        Some(action) => applied(state, action, lengths, cell),
        None => state,
    }
}

/// The rectangle that marks the cursor's cell on screen: the cell's box,
/// moved back by the scroll offset and placed from the viewport's origin.
pub open spec fn cursor_rectangle(state: EditorState, cell: CellMetrics) -> Bounds<i64> {
    let cell_box = cell.spec_cell_bounds(state.cursor.row, state.cursor.column);
    Bounds {
        pos: Position {
            x: clamp_px(
                state.viewport.viewport.pos.x + cell_box.pos.x - state.viewport.scroll_offset.x,
            ),
            y: clamp_px(
                state.viewport.viewport.pos.y + cell_box.pos.y - state.viewport.scroll_offset.y,
            ),
        },
        size: cell_box.size,
    }
}

/// Whether the window shows the cursor's cell in full.
pub open spec fn shows_cursor(state: EditorState, cell: CellMetrics) -> bool {
    let cell_box = cell.spec_cell_bounds(state.cursor.row, state.cursor.column);
    &&& shows(
        state.viewport.viewport.pos.x,
        state.viewport.viewport.size.w,
        state.viewport.scroll_offset.x,
        cell_box.pos.x,
        cell_box.size.w,
    )
    &&& shows(
        state.viewport.viewport.pos.y,
        state.viewport.viewport.size.h,
        state.viewport.scroll_offset.y,
        cell_box.pos.y,
        cell_box.size.h,
    )
}

/// After a command the window shows the cursor's cell in full, provided
/// that a cell fits the viewport and that the cell lies within the range of
/// pixel coordinates.
pub proof fn lemma_executed_shows_cursor(
    state: EditorState,
    command: Command,
    lengths: Seq<nat>,
    cell: CellMetrics,
)
    requires
        1 <= cell.width() <= state.viewport.viewport.size.w,
        1 <= cell.height() <= state.viewport.viewport.size.h,
        (executed(state, command, lengths, cell).cursor.column + 1) * cell.width() <= i64::MAX,
        (executed(state, command, lengths, cell).cursor.row + 1) * cell.height() <= i64::MAX,
    ensures
        shows_cursor(executed(state, command, lengths, cell), cell),
{
    let after = executed(state, command, lengths, cell);
    let column = after.cursor.column;
    let row = after.cursor.row;
    let width = cell.width();
    let height = cell.height();
    assert(0 <= column * width && (column + 1) * width == column * width + width)
        by (nonlinear_arith)
        requires
            0 <= width,
    ;
    assert(0 <= row * height && (row + 1) * height == row * height + height)
        by (nonlinear_arith)
        requires
            0 <= height,
    ;
    let cell_box = cell.spec_cell_bounds(row, column);
    lemma_revealed_shows_target(
        state.viewport.viewport.pos.x,
        state.viewport.viewport.size.w,
        state.viewport.scroll_offset.x,
        cell_box.pos.x,
        cell_box.size.w,
    );
    lemma_revealed_shows_target(
        state.viewport.viewport.pos.y,
        state.viewport.viewport.size.h,
        state.viewport.scroll_offset.y,
        cell_box.pos.y,
        cell_box.size.h,
    );
}

impl View for Editor {
    type V = EditorState;

    closed spec fn view(&self) -> EditorState {
        EditorState { cursor: self.cursor@, viewport: self.view.spec_viewport() }
    }
}

impl Editor {
    /// The buffer shown.
    pub closed spec fn spec_buffer(&self) -> Buffer {
        self.view.spec_buffer()
    }

    /// The size of a cell.
    pub closed spec fn spec_cell(&self) -> CellMetrics {
        self.cell
    }

    /// The text view.
    pub closed spec fn spec_view(&self) -> TextView {
        self.view
    }

    /// Whether the cursor lies on a cell of the buffer.
    pub open spec fn cursor_in_bounds(&self) -> bool {
        in_bounds(self@.cursor, self.spec_buffer().line_lengths())
    }

    /// An editor for `buffer`, shown through `viewport` with cells of the
    /// given size. The cursor is on the first cell, and nothing is scrolled.
    pub fn new(buffer: Buffer, viewport: Bounds<u32>, cell: CellMetrics) -> (editor: Editor)
        ensures
            editor.spec_buffer() == buffer,
            editor.spec_cell() == cell,
            editor@ == (EditorState {
                cursor: first_cell(),
                viewport: ViewportState { viewport, scroll_offset: Position { x: 0, y: 0 } },
            }),
            editor.cursor_in_bounds(),
    {
        Editor { view: TextView::new(buffer, viewport), cursor: CursorModel::new(), cell }
    }

    /// The text view.
    pub fn text_view(&self) -> (view: &TextView)
        ensures
            *view == self.spec_view(),
            view.spec_buffer() == self.spec_buffer(),
            view.spec_viewport() == self@.viewport,
    {
        &self.view
    }

    /// The buffer shown.
    pub fn buffer(&self) -> (buffer: &Buffer)
        ensures
            *buffer == self.spec_buffer(),
    {
        self.view.buffer()
    }

    /// The size of a cell.
    pub fn cell(&self) -> (cell: CellMetrics)
        ensures
            cell == self.spec_cell(),
    {
        self.cell
    }

    /// The cell the cursor is on.
    pub fn position(&self) -> (position: CellPosition)
        ensures
            position.row == self@.cursor.row,
            position.column == self@.cursor.column,
    {
        self.cursor.position()
    }

    /// The column remembered for vertical moves, if one is.
    pub fn sticky_column(&self) -> (sticky: Option<usize>)
        ensures
            match sticky {
                Some(column) => self@.cursor.sticky == Some(column as nat),
                None => self@.cursor.sticky is None,
            },
    {
        self.cursor.sticky_column()
    }

    /// The visible rectangle.
    pub fn viewport(&self) -> (viewport: Bounds<u32>)
        ensures
            viewport == self@.viewport.viewport,
    {
        self.view.viewport()
    }

    /// The scroll offset.
    pub fn scroll_offset(&self) -> (offset: Position<i64>)
        ensures
            offset == self@.viewport.scroll_offset,
    {
        self.view.scroll_offset()
    }

    /// Runs one navigation command: moves the cursor, then scrolls its cell into view.
    pub fn execute_command(&mut self, command: Command)
        ensures
            final(self).spec_buffer() == old(self).spec_buffer(),
            final(self).spec_cell() == old(self).spec_cell(),
            final(self)@ == executed(
                old(self)@,
                command,
                old(self).spec_buffer().line_lengths(),
                old(self).spec_cell(),
            ),
            old(self).cursor_in_bounds() ==> final(self).cursor_in_bounds(),
    {
        let cells = self.cell.cells_in(self.view.viewport().size);
        self.cursor.execute(command, self.view.buffer(), cells);
        let position = self.cursor.position();
        self.view.ensure_visible(self.cell.cell_bounds(position.row, position.column));
    }

    /// Carries out one action.
    pub fn apply(&mut self, action: Action)
        ensures
            final(self).spec_buffer() == old(self).spec_buffer(),
            final(self).spec_cell() == old(self).spec_cell(),
            final(self)@ == applied(
                old(self)@,
                action,
                old(self).spec_buffer().line_lengths(),
                old(self).spec_cell(),
            ),
            action is Move && old(self).cursor_in_bounds() ==> final(self).cursor_in_bounds(),
            (action is ScrollPixels || action is ScrollCells) ==> final(self)@.cursor == old(
                self,
            )@.cursor,
    {
        match action {
            Action::Move(command) => self.execute_command(command),
            Action::ScrollPixels(delta) => self.view.scroll_by(delta),
            Action::ScrollCells(delta) => self.view.scroll_by_cells(delta, self.cell),
            Action::Resize(new_size) => {
                let cells = self.cell.cells_in(new_size);
                self.cursor.cap(cells.h, cells.w);
                self.view.resize(new_size);
            },
        }
    }

    /// Handles one input event: carries out the action it asks for, if any.
    pub fn handle_event(&mut self, event: &InputEvent)
        ensures
            final(self).spec_buffer() == old(self).spec_buffer(),
            final(self).spec_cell() == old(self).spec_cell(),
            final(self)@ == handled(
                old(self)@,
                *event,
                old(self).spec_buffer().line_lengths(),
                old(self).spec_cell(),
            ),
    {
        match interpret(event) {
            Some(action) => self.apply(action),
            None => {},
        }
    }

    /// The draw instructions of a frame. `label_width` is the width in
    /// pixels at which the label text will be drawn.
    pub fn render(&self, label_width: u32) -> (frame: Frame)
        ensures
            shows_frame(
                frame.texts@,
                self.spec_buffer()@,
                self@.viewport,
                self.spec_cell(),
                label_width,
            ),
            frame.cursor == cursor_rectangle(self@, self.spec_cell()),
    {
        let viewport = self.view.viewport();
        let scroll = self.view.scroll_offset();
        let position = self.cursor.position();
        let cell_box = self.cell.cell_bounds(position.row, position.column);
        let cursor = Bounds {
            pos: Position {
                x: saturate(viewport.pos.x as i128 + cell_box.pos.x as i128 - scroll.x as i128),
                y: saturate(viewport.pos.y as i128 + cell_box.pos.y as i128 - scroll.y as i128),
            },
            size: cell_box.size,
        };
        Frame { texts: self.view.render(self.cell, label_width), cursor }
    }
}

} // verus!
