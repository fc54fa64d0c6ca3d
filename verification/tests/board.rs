use tic_tac_toe::board::Board;
use tic_tac_toe::data::{BoardError, CellPosition, CellState};

fn pos(row: i32, col: i32) -> CellPosition {
    CellPosition::new(row, col)
}

#[test]
fn new_board_is_empty_everywhere() {
    let board = Board::new();
    for row in -1..=1 {
        for col in -1..=1 {
            assert_eq!(board.get(pos(row, col)), Ok(CellState::Empty));
        }
    }
}

#[test]
fn get_rejects_positions_off_the_grid() {
    let board = Board::new();
    assert_eq!(board.get(pos(2, 0)), Err(BoardError::OutOfRange));
    assert_eq!(board.get(pos(-2, 0)), Err(BoardError::OutOfRange));
    assert_eq!(board.get(pos(0, 5)), Err(BoardError::OutOfRange));
}

#[test]
fn set_overwrites_one_cell_and_no_other() {
    let mut board = Board::new();
    board.set(pos(0, 1), CellState::X);
    assert_eq!(board.get(pos(0, 1)), Ok(CellState::X));
    board.set(pos(0, 1), CellState::O);
    assert_eq!(board.get(pos(0, 1)), Ok(CellState::O));
    for row in -1..=1 {
        for col in -1..=1 {
            if (row, col) != (0, 1) {
                assert_eq!(board.get(pos(row, col)), Ok(CellState::Empty));
            }
        }
    }
}

#[test]
fn reset_empties_every_cell() {
    let mut board = Board::new();
    board.set(pos(-1, -1), CellState::X);
    board.set(pos(1, 1), CellState::O);
    board.reset();
    for row in -1..=1 {
        for col in -1..=1 {
            assert_eq!(board.get(pos(row, col)), Ok(CellState::Empty));
        }
    }
}

#[test]
fn all_positions_lists_the_nine_cells_row_major() {
    let board = Board::new();
    let positions = board.all_positions();
    let expected = vec![
        pos(-1, -1),
        pos(-1, 0),
        pos(-1, 1),
        pos(0, -1),
        pos(0, 0),
        pos(0, 1),
        pos(1, -1),
        pos(1, 0),
        pos(1, 1),
    ];
    assert_eq!(positions, expected);
}

#[test]
fn is_full_tracks_the_board_contents() {
    let mut board = Board::new();
    assert!(!board.is_full());
    let positions = board.all_positions();
    for p in &positions {
        board.set(*p, CellState::X);
    }
    assert!(board.is_full());
    board.set(pos(0, 0), CellState::Empty);
    assert!(!board.is_full());
}
