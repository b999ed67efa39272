use wlte::{Buffer, CellPosition, Command, CursorModel, Size};

const COMMANDS: [Command; 8] = [
    Command::MoveLeftWrap,
    Command::MoveRightWrap,
    Command::MoveUp,
    Command::MoveDown,
    Command::MoveToStartOfLine,
    Command::MoveToEndOfLine,
    Command::MoveUpOnePage,
    Command::MoveDownOnePage,
];

fn at(row: usize, column: usize) -> CursorModel {
    CursorModel::at(CellPosition { row, column })
}

fn cell(row: usize, column: usize) -> CellPosition {
    CellPosition { row, column }
}

fn run(cursor: &mut CursorModel, commands: &[Command], lengths: &Vec<usize>, page: usize) {
    for command in commands {
        cursor.execute_on(*command, lengths, page);
    }
}

fn on_text(position: CellPosition, lengths: &Vec<usize>) -> bool {
    let rows = lengths.len().max(1);
    let length = lengths.get(position.row).copied().unwrap_or(0);
    position.row < rows && position.column <= length.saturating_sub(1)
}

#[test]
fn new_cursor_is_on_the_first_cell() {
    let cursor = CursorModel::new();
    assert_eq!(cursor.position(), cell(0, 0));
    assert_eq!(cursor.sticky_column(), None);
}

#[test]
fn sticky_column_round_trip() {
    let lengths = vec![20, 5, 20];
    let mut cursor = at(0, 15);
    cursor.execute_on(Command::MoveDown, &lengths, 10);
    assert_eq!(cursor.position(), cell(1, 4));
    cursor.execute_on(Command::MoveDown, &lengths, 10);
    assert_eq!(cursor.position(), cell(2, 15));
    cursor.execute_on(Command::MoveUp, &lengths, 10);
    assert_eq!(cursor.position(), cell(1, 4));
    cursor.execute_on(Command::MoveUp, &lengths, 10);
    assert_eq!(cursor.position(), cell(0, 15));
    assert_eq!(cursor.sticky_column(), Some(15));
}

#[test]
fn sticky_column_is_set_by_the_first_vertical_move_only() {
    let lengths = vec![20, 5, 20, 3];
    let mut cursor = at(0, 15);
    cursor.execute_on(Command::MoveDown, &lengths, 10);
    assert_eq!(cursor.sticky_column(), Some(15));
    cursor.execute_on(Command::MoveDown, &lengths, 10);
    cursor.execute_on(Command::MoveDown, &lengths, 10);
    assert_eq!(cursor.position(), cell(3, 2));
    assert_eq!(cursor.sticky_column(), Some(15));
}

#[test]
fn horizontal_moves_clear_the_sticky_column() {
    let lengths = vec![20, 5, 20];
    for command in [
        Command::MoveLeftWrap,
        Command::MoveRightWrap,
        Command::MoveToStartOfLine,
        Command::MoveToEndOfLine,
    ] {
        let mut cursor = at(0, 15);
        cursor.execute_on(Command::MoveDown, &lengths, 10);
        assert_eq!(cursor.sticky_column(), Some(15));
        cursor.execute_on(command, &lengths, 10);
        assert_eq!(cursor.sticky_column(), None);
    }
}

#[test]
fn sticky_column_is_forgotten_after_a_horizontal_move() {
    let lengths = vec![20, 5, 20];
    let mut cursor = at(0, 15);
    run(&mut cursor, &[Command::MoveDown, Command::MoveLeftWrap, Command::MoveDown], &lengths, 10);
    assert_eq!(cursor.position(), cell(2, 3));
    assert_eq!(cursor.sticky_column(), Some(3));
}

#[test]
fn move_left_wrap_within_a_line() {
    let lengths = vec![4, 6];
    let mut cursor = at(1, 3);
    cursor.execute_on(Command::MoveLeftWrap, &lengths, 10);
    assert_eq!(cursor.position(), cell(1, 2));
}

#[test]
fn move_left_wrap_from_first_column_goes_to_end_of_previous_line() {
    let lengths = vec![4, 6, 0, 2];
    let mut cursor = at(1, 0);
    cursor.execute_on(Command::MoveLeftWrap, &lengths, 10);
    assert_eq!(cursor.position(), cell(0, 3));
    let mut cursor = at(3, 0);
    cursor.execute_on(Command::MoveLeftWrap, &lengths, 10);
    assert_eq!(cursor.position(), cell(2, 0));
}

#[test]
fn move_left_wrap_on_the_first_cell_stays() {
    let lengths = vec![4, 6];
    let mut cursor = at(0, 0);
    cursor.execute_on(Command::MoveLeftWrap, &lengths, 10);
    assert_eq!(cursor.position(), cell(0, 0));
}

#[test]
fn move_right_wrap_within_a_line() {
    let lengths = vec![4, 6];
    let mut cursor = at(0, 2);
    cursor.execute_on(Command::MoveRightWrap, &lengths, 10);
    assert_eq!(cursor.position(), cell(0, 3));
}

#[test]
fn move_right_wrap_from_last_column_goes_to_start_of_next_line() {
    let lengths = vec![4, 0, 6];
    let mut cursor = at(0, 3);
    cursor.execute_on(Command::MoveRightWrap, &lengths, 10);
    assert_eq!(cursor.position(), cell(1, 0));
    cursor.execute_on(Command::MoveRightWrap, &lengths, 10);
    assert_eq!(cursor.position(), cell(2, 0));
}

#[test]
fn move_right_wrap_on_the_last_cell_stays() {
    let lengths = vec![4, 6];
    let mut cursor = at(1, 5);
    cursor.execute_on(Command::MoveRightWrap, &lengths, 10);
    assert_eq!(cursor.position(), cell(1, 5));
}

#[test]
fn move_up_stops_at_the_first_line() {
    let lengths = vec![4, 6];
    let mut cursor = at(1, 2);
    cursor.execute_on(Command::MoveUp, &lengths, 10);
    assert_eq!(cursor.position(), cell(0, 2));
    cursor.execute_on(Command::MoveUp, &lengths, 10);
    assert_eq!(cursor.position(), cell(0, 2));
}

#[test]
fn move_down_stops_at_the_last_line() {
    let lengths = vec![4, 6];
    let mut cursor = at(0, 2);
    cursor.execute_on(Command::MoveDown, &lengths, 10);
    assert_eq!(cursor.position(), cell(1, 2));
    cursor.execute_on(Command::MoveDown, &lengths, 10);
    assert_eq!(cursor.position(), cell(1, 2));
}

#[test]
fn move_to_start_and_end_of_line() {
    let lengths = vec![4, 0, 6];
    let mut cursor = at(2, 3);
    cursor.execute_on(Command::MoveToEndOfLine, &lengths, 10);
    assert_eq!(cursor.position(), cell(2, 5));
    cursor.execute_on(Command::MoveToStartOfLine, &lengths, 10);
    assert_eq!(cursor.position(), cell(2, 0));
    let mut cursor = at(1, 0);
    cursor.execute_on(Command::MoveToEndOfLine, &lengths, 10);
    assert_eq!(cursor.position(), cell(1, 0));
}

#[test]
fn page_moves_go_by_the_height_of_the_viewport() {
    let lengths = vec![3; 30];
    let mut cursor = at(12, 1);
    cursor.execute_on(Command::MoveDownOnePage, &lengths, 10);
    assert_eq!(cursor.position(), cell(22, 1));
    cursor.execute_on(Command::MoveDownOnePage, &lengths, 10);
    assert_eq!(cursor.position(), cell(29, 1));
    cursor.execute_on(Command::MoveUpOnePage, &lengths, 10);
    assert_eq!(cursor.position(), cell(19, 1));
    cursor.execute_on(Command::MoveUpOnePage, &lengths, 10);
    cursor.execute_on(Command::MoveUpOnePage, &lengths, 10);
    assert_eq!(cursor.position(), cell(0, 1));
}

#[test]
fn page_moves_with_a_page_of_no_rows_stay_on_the_row() {
    let lengths = vec![3; 5];
    let mut cursor = at(2, 1);
    cursor.execute_on(Command::MoveDownOnePage, &lengths, 0);
    assert_eq!(cursor.position(), cell(2, 1));
    cursor.execute_on(Command::MoveUpOnePage, &lengths, 0);
    assert_eq!(cursor.position(), cell(2, 1));
}

#[test]
fn page_down_with_a_huge_page_goes_to_the_last_line() {
    let lengths = vec![3; 5];
    let mut cursor = at(2, 1);
    cursor.execute_on(Command::MoveDownOnePage, &lengths, usize::MAX);
    assert_eq!(cursor.position(), cell(4, 1));
    cursor.execute_on(Command::MoveUpOnePage, &lengths, usize::MAX);
    assert_eq!(cursor.position(), cell(0, 1));
}

#[test]
fn every_command_on_an_empty_buffer_stays_on_the_first_cell() {
    let lengths: Vec<usize> = vec![];
    for command in COMMANDS {
        let mut cursor = CursorModel::new();
        cursor.execute_on(command, &lengths, 10);
        assert_eq!(cursor.position(), cell(0, 0));
    }
}

#[test]
fn vertical_move_onto_a_shorter_line_goes_to_its_last_cell() {
    let lengths = vec![10, 0, 4];
    let mut cursor = at(0, 7);
    cursor.execute_on(Command::MoveDown, &lengths, 10);
    assert_eq!(cursor.position(), cell(1, 0));
    cursor.execute_on(Command::MoveDown, &lengths, 10);
    assert_eq!(cursor.position(), cell(2, 3));
}

#[test]
fn cursor_stays_on_the_text_under_every_short_run_of_commands() {
    let lengths = vec![3, 0, 5, 1];
    let mut runs: Vec<Vec<Command>> = vec![vec![]];
    for _ in 0..4 {
        let mut longer = Vec::new();
        for run in &runs {
            for command in COMMANDS {
                let mut next = run.clone();
                next.push(command);
                longer.push(next);
            }
        }
        runs = longer;
    }
    assert_eq!(runs.len(), 4096);
    for commands in &runs {
        for page in [0, 1, 3] {
            let mut cursor = CursorModel::new();
            for command in commands {
                cursor.execute_on(*command, &lengths, page);
                assert!(on_text(cursor.position(), &lengths), "{:?}", commands);
            }
        }
    }
}

#[test]
fn execute_reads_the_lines_of_the_buffer() {
    let buffer = Buffer::load(
        "a.txt".to_string(),
        Some("0123456789\ne\u{301}e\u{301}\n0123456789".to_string()),
    );
    let cells = Size { w: 50, h: 10 };
    let mut cursor = at(0, 7);
    cursor.execute(Command::MoveDown, &buffer, cells);
    assert_eq!(cursor.position(), cell(1, 1));
    cursor.execute(Command::MoveDown, &buffer, cells);
    assert_eq!(cursor.position(), cell(2, 7));
    cursor.execute(Command::MoveToEndOfLine, &buffer, cells);
    assert_eq!(cursor.position(), cell(2, 9));
    cursor.execute(Command::MoveRightWrap, &buffer, cells);
    assert_eq!(cursor.position(), cell(2, 9));
    cursor.execute(Command::MoveUpOnePage, &buffer, cells);
    assert_eq!(cursor.position(), cell(0, 9));
}

#[test]
fn cap_limits_row_and_column() {
    let mut cursor = at(12, 70);
    cursor.cap(20, 80);
    assert_eq!(cursor.position(), cell(12, 70));
    cursor.cap(10, 50);
    assert_eq!(cursor.position(), cell(10, 50));
    cursor.cap(10, 3);
    assert_eq!(cursor.position(), cell(10, 3));
    cursor.cap(0, 0);
    assert_eq!(cursor.position(), cell(0, 0));
}

#[test]
fn cap_keeps_the_sticky_column() {
    let lengths = vec![20, 5, 20];
    let mut cursor = at(0, 15);
    cursor.execute_on(Command::MoveDown, &lengths, 10);
    cursor.cap(0, 2);
    assert_eq!(cursor.position(), cell(0, 2));
    assert_eq!(cursor.sticky_column(), Some(15));
}
