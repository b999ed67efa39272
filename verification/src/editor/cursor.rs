//! The cursor: a cell position that navigation commands move over lines of
//! varying length, with a remembered column for runs of vertical moves.

use super::buffer::{as_nats, Buffer};
use crate::base::math::Size;
use vstd::prelude::*;

verus! {

/// A navigation command.
#[derive(Debug, Clone, Copy, PartialEq, Eq, Structural)]
pub enum Command {
    /// One cell left; from the start of a line to the end of the line above.
    MoveLeftWrap,
    /// One cell right; from the end of a line to the start of the line below.
    MoveRightWrap,
    /// One line up.
    MoveUp,
    /// One line down.
    MoveDown,
    /// To the first cell of the line.
    MoveToStartOfLine,
    /// To the last cell of the line.
    MoveToEndOfLine,
    /// Up by the height of the viewport.
    MoveUpOnePage,
    /// Down by the height of the viewport.
    MoveDownOnePage,
}

/// A cell of the text: a line and a grapheme cluster within it.
#[derive(Debug, Clone, Copy, PartialEq, Eq, Structural)]
pub struct CellPosition {
    pub row: usize,
    pub column: usize,
}

/// The cursor as natural numbers.
pub struct CursorState {
    pub row: nat,
    pub column: nat,
    /// The column that vertical moves return to where the line is long enough.
    pub sticky: Option<nat>,
}

/// The cursor position and the column remembered across vertical moves.
pub struct CursorModel {
    position: CellPosition,
    sticky_column: Option<usize>,
}

/// The last valid column of a line of `length` cells: `length - 1`, or 0 for an empty line.
/// Also the last valid row of a buffer of `length` lines.
pub open spec fn last_index(length: nat) -> nat {
    if length == 0 {
        0
    } else {
        (length - 1) as nat
    }
}

/// The length of the line at `row`; 0 where there is no such line.
pub open spec fn length_at(lengths: Seq<nat>, row: nat) -> nat {
    if row < lengths.len() {
        lengths[row as int]
    } else {
        0
    }
}

/// Whether a command moves the cursor from line to line and keeps the remembered column.
pub open spec fn is_vertical(command: Command) -> bool {
    command is MoveUp || command is MoveDown || command is MoveUpOnePage
        || command is MoveDownOnePage
}

/// The row a vertical command leads to, in a buffer of `line_count` lines.
pub open spec fn target_row(row: nat, command: Command, line_count: nat, page_rows: nat) -> nat {
    match command {
        Command::MoveUp => if row >= 1 {
            (row - 1) as nat
        } else {
            0
        },
        Command::MoveDown => if row + 1 <= last_index(line_count) {
            row + 1
        } else {
            last_index(line_count)
        },
        Command::MoveUpOnePage => if row >= page_rows {
            (row - page_rows) as nat
        } else {
            0
        },
        Command::MoveDownOnePage => if row + page_rows <= last_index(line_count) {
            row + page_rows
        } else {
            last_index(line_count)
        },
        _ => row,
    }
}

/// The column after a vertical move onto a line of `length` cells: the
/// remembered column where both it and the current column fit the line,
/// else the last cell of the line.
pub open spec fn settled_column(column: nat, sticky: nat, length: nat) -> nat {
    if column >= length {
        last_index(length)
    } else if sticky < length {
        sticky
    } else {
        last_index(length)
    }
}

/// The cursor after one command, over lines of the given lengths and a
/// viewport `page_rows` cells high.
pub open spec fn step(
    cursor: CursorState,
    command: Command,
    lengths: Seq<nat>,
    page_rows: nat,
) -> CursorState {
    match command {
        Command::MoveLeftWrap => if cursor.column > 0 {
            CursorState { row: cursor.row, column: (cursor.column - 1) as nat, sticky: None }
        } else if cursor.row > 0 {
            CursorState {
                row: (cursor.row - 1) as nat,
                column: last_index(length_at(lengths, (cursor.row - 1) as nat)),
                sticky: None,
            }
        } else {
            CursorState { row: cursor.row, column: cursor.column, sticky: None }
        },
        Command::MoveRightWrap => if cursor.column + 1 < length_at(lengths, cursor.row) {
            CursorState { row: cursor.row, column: cursor.column + 1, sticky: None }
        } else if cursor.row + 1 < lengths.len() {
            CursorState { row: cursor.row + 1, column: 0, sticky: None }
        } else {
            CursorState { row: cursor.row, column: cursor.column, sticky: None }
        },
        Command::MoveToStartOfLine => CursorState { row: cursor.row, column: 0, sticky: None },
        Command::MoveToEndOfLine => CursorState {
            row: cursor.row,
            column: last_index(length_at(lengths, cursor.row)),
            sticky: None,
        },
        _ => {
            let sticky = match cursor.sticky {
                Some(column) => column,
                None => cursor.column,
            };
            let row = target_row(cursor.row, command, lengths.len(), page_rows);
            CursorState {
                row,
                column: settled_column(cursor.column, sticky, length_at(lengths, row)),
                sticky: Some(sticky),
            }
        },
    }
}

/// Whether the cursor lies on a cell of the text: on a line of the buffer
/// (row 0 of an empty one) and within that line (column 0 of an empty one).
pub open spec fn in_bounds(cursor: CursorState, lengths: Seq<nat>) -> bool {
    &&& cursor.row <= last_index(lengths.len())
    &&& cursor.column <= last_index(length_at(lengths, cursor.row))
}

/// The cursor after its row and column are each capped at a maximum.
pub open spec fn capped(cursor: CursorState, max_row: nat, max_column: nat) -> CursorState {
    CursorState {
        row: if cursor.row <= max_row {
            cursor.row
        } else {
            max_row
        },
        column: if cursor.column <= max_column {
            cursor.column
        } else {
            max_column
        },
        sticky: cursor.sticky,
    }
}

/// The cursor after a run of commands, carried out first to last.
pub open spec fn run(
    cursor: CursorState,
    commands: Seq<Command>,
    lengths: Seq<nat>,
    page_rows: nat,
) -> CursorState
    decreases commands.len(),
{
    if commands.len() == 0 {
        cursor
    } else {
        step(run(cursor, commands.drop_last(), lengths, page_rows), commands.last(), lengths, page_rows)
    }
}

/// The cursor on the first cell, where every editor starts.
pub open spec fn first_cell() -> CursorState {
    CursorState { row: 0, column: 0, sticky: None }
}

/// No command takes the cursor off the text: from a position on a cell of
/// the text every command leads to a position on a cell of the text.
pub proof fn lemma_step_stays_in_bounds(
    cursor: CursorState,
    command: Command,
    lengths: Seq<nat>,
    page_rows: nat,
)
    requires
        in_bounds(cursor, lengths),
    ensures
        in_bounds(step(cursor, command, lengths, page_rows), lengths),
{
}

/// Every position that a run of commands reaches from the first cell lies
/// on a cell of the text, whatever the lines are.
pub proof fn lemma_reachable_in_bounds(commands: Seq<Command>, lengths: Seq<nat>, page_rows: nat)
    ensures
        in_bounds(run(first_cell(), commands, lengths, page_rows), lengths),
    decreases commands.len(),
{
    if commands.len() > 0 {
        lemma_reachable_in_bounds(commands.drop_last(), lengths, page_rows);
        lemma_step_stays_in_bounds(
            run(first_cell(), commands.drop_last(), lengths, page_rows),
            commands.last(),
            lengths,
            page_rows,
        );
    }
}

/// A vertical command keeps the remembered column, or remembers the column
/// it starts from where none was remembered; any other command forgets it.
pub proof fn lemma_sticky_column(
    cursor: CursorState,
    command: Command,
    lengths: Seq<nat>,
    page_rows: nat,
)
    ensures
        step(cursor, command, lengths, page_rows).sticky == if is_vertical(command) {
            match cursor.sticky {
                Some(column) => Some(column),
                None => Some(cursor.column),
            }
        } else {
            None
        },
{
}

/// `MoveLeftWrap` from the first column goes to the last cell of the line
/// above; on the first line it leaves the position where it is.
pub proof fn lemma_left_wrap_from_first_column(
    cursor: CursorState,
    lengths: Seq<nat>,
    page_rows: nat,
)
    requires
        cursor.column == 0,
    ensures
        ({
            let moved = step(cursor, Command::MoveLeftWrap, lengths, page_rows);
            if cursor.row > 0 {
                &&& moved.row == cursor.row - 1
                &&& moved.column == last_index(length_at(lengths, moved.row))
            } else {
                &&& moved.row == cursor.row
                &&& moved.column == cursor.column
            }
        }),
{
}

/// `MoveRightWrap` from the last cell of a line goes to the first cell of
/// the line below; on the last line it leaves the position where it is.
pub proof fn lemma_right_wrap_from_last_column(
    cursor: CursorState,
    lengths: Seq<nat>,
    page_rows: nat,
)
    requires
        cursor.column + 1 >= length_at(lengths, cursor.row),
    ensures
        ({
            let moved = step(cursor, Command::MoveRightWrap, lengths, page_rows);
            if cursor.row + 1 < lengths.len() {
                &&& moved.row == cursor.row + 1
                &&& moved.column == 0
            } else {
                &&& moved.row == cursor.row
                &&& moved.column == cursor.column
            }
        }),
{
}

/// Capping keeps the row on the text, and keeps the column on the text
/// wherever the row stays the same.
pub proof fn lemma_capped_bounds(
    cursor: CursorState,
    lengths: Seq<nat>,
    max_row: nat,
    max_column: nat,
)
    requires
        in_bounds(cursor, lengths),
    ensures
        capped(cursor, max_row, max_column).row <= last_index(lengths.len()),
        cursor.row <= max_row ==> in_bounds(capped(cursor, max_row, max_column), lengths),
{
}

impl View for CursorModel {
    type V = CursorState;

    closed spec fn view(&self) -> CursorState {
        CursorState {
            row: self.position.row as nat,
            column: self.position.column as nat,
            sticky: match self.sticky_column {
                Some(column) => Some(column as nat),
                None => None,
            },
        }
    }
}

fn index_before(length: usize) -> (index: usize)
    ensures
        index == last_index(length as nat),
{
    if length == 0 {
        0
    } else {
        length - 1
    }
}

fn length_of_row(lengths: &Vec<usize>, row: usize) -> (length: usize)
    ensures
        length == length_at(as_nats(lengths@), row as nat),
{
    if row < lengths.len() {
        lengths[row]
    } else {
        0
    }
}

impl CursorModel {
    /// A cursor on the first cell, with no remembered column.
    pub fn new() -> (cursor: CursorModel)
        ensures
            cursor@ == first_cell(),
    {
        CursorModel { position: CellPosition { row: 0, column: 0 }, sticky_column: None }
    }

    /// A cursor on the given cell, with no remembered column.
    pub fn at(position: CellPosition) -> (cursor: CursorModel)
        ensures
            cursor@ == (CursorState {
                row: position.row as nat,
                column: position.column as nat,
                sticky: None,
            }),
    {
        CursorModel { position, sticky_column: None }
    }

    /// The cell the cursor is on.
    pub fn position(&self) -> (position: CellPosition)
        ensures
            position.row == self@.row,
            position.column == self@.column,
    {
        self.position
    }

    /// The column remembered for vertical moves, if one is.
    pub fn sticky_column(&self) -> (sticky: Option<usize>)
        ensures
            match sticky {
                Some(column) => self@.sticky == Some(column as nat),
                None => self@.sticky is None,
            },
    {
        self.sticky_column
    }

    /// Runs one command over the lines of `buffer`, in a viewport
    /// `viewport_cells.h` cells high.
    pub fn execute(&mut self, command: Command, buffer: &Buffer, viewport_cells: Size<usize>)
        ensures
            final(self)@ == step(old(self)@, command, buffer.line_lengths(), viewport_cells.h as nat),
            in_bounds(old(self)@, buffer.line_lengths()) ==> in_bounds(
                final(self)@,
                buffer.line_lengths(),
            ),
    {
        self.execute_on(command, buffer.lengths(), viewport_cells.h);
    }

    /// Runs one command over lines of the given lengths, in a viewport
    /// `page_rows` cells high.
    pub fn execute_on(&mut self, command: Command, lengths: &Vec<usize>, page_rows: usize)
        ensures
            final(self)@ == step(old(self)@, command, as_nats(lengths@), page_rows as nat),
            in_bounds(old(self)@, as_nats(lengths@)) ==> in_bounds(
                final(self)@,
                as_nats(lengths@),
            ),
    {
        let row = self.position.row;
        let column = self.position.column;
        let last_row = index_before(lengths.len());
        proof {
            assert(as_nats(lengths@).len() == lengths@.len());
            if in_bounds(old(self)@, as_nats(lengths@)) {
                lemma_step_stays_in_bounds(
                    old(self)@,
                    command,
                    as_nats(lengths@),
                    page_rows as nat,
                );
            }
        }
        match command {
            Command::MoveLeftWrap => {
                if column > 0 {
                    self.position.column = column - 1;
                } else if row > 0 {
                    self.position.row = row - 1;
                    self.position.column = index_before(length_of_row(lengths, row - 1));
                }
                self.sticky_column = None;
            },
            Command::MoveRightWrap => {
                let length = length_of_row(lengths, row);
                if length > 0 && column < length - 1 {
                    self.position.column = column + 1;
                } else if row < last_row {
                    self.position.row = row + 1;
                    self.position.column = 0;
                }
                self.sticky_column = None;
            },
            Command::MoveToStartOfLine => {
                self.position.column = 0;
                self.sticky_column = None;
            },
            Command::MoveToEndOfLine => {
                self.position.column = index_before(length_of_row(lengths, row));
                self.sticky_column = None;
            },
            Command::MoveUp | Command::MoveDown | Command::MoveUpOnePage | Command::MoveDownOnePage => {
                let sticky = match self.sticky_column {
                    Some(remembered) => remembered,
                    None => column,
                };
                let target = match command {
                    Command::MoveUp => if row > 0 {
                        row - 1
                    } else {
                        0
                    },
                    Command::MoveDown => if row < last_row {
                        row + 1
                    } else {
                        last_row
                    },
                    Command::MoveUpOnePage => if row >= page_rows {
                        row - page_rows
                    } else {
                        0
                    },
                    _ => if row < last_row && page_rows <= last_row - row {
                        row + page_rows
                    } else {
                        last_row
                    },
                };
                let length = length_of_row(lengths, target);
                self.position.row = target;
                self.position.column = if column >= length {
                    index_before(length)
                } else if sticky < length {
                    sticky
                } else {
                    index_before(length)
                };
                self.sticky_column = Some(sticky);
            },
        }
    }

    /// Caps the row at `max_row` and the column at `max_column`. The
    /// remembered column stays as it is.
    pub fn cap(&mut self, max_row: usize, max_column: usize)
        ensures
            final(self)@ == capped(old(self)@, max_row as nat, max_column as nat),
    {
        if self.position.row > max_row {
            self.position.row = max_row;
        }
        if self.position.column > max_column {
            self.position.column = max_column;
        }
    }
}

} // verus!
