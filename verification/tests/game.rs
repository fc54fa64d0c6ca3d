use tic_tac_toe::board::Board;
use tic_tac_toe::data::{CellPosition, CellState, GameEvent, GameState, MoveError, WinLine};
use tic_tac_toe::engine::{get_winning_positions, GameEngine};

fn pos(row: i32, col: i32) -> CellPosition {
    CellPosition::new(row, col)
}

fn mv(engine: &mut GameEngine, row: i32, col: i32) -> Vec<GameEvent> {
    engine.process_move(pos(row, col)).unwrap()
}

fn line(a: (i32, i32), b: (i32, i32), c: (i32, i32)) -> WinLine {
    WinLine { first: pos(a.0, a.1), second: pos(b.0, b.1), third: pos(c.0, c.1) }
}

#[test]
fn new_engine_starts_at_x_turn_with_empty_board() {
    let engine = GameEngine::new();
    assert_eq!(engine.current_state(), GameState::XTurn);
    let snapshot = engine.board_snapshot();
    assert_eq!(snapshot.len(), 9);
    for (_, mark) in snapshot {
        assert_eq!(mark, CellState::Empty);
    }
}

#[test]
fn snapshot_positions_are_row_major() {
    let engine = GameEngine::new();
    let snapshot = engine.board_snapshot();
    assert_eq!(snapshot[0].0, pos(-1, -1));
    assert_eq!(snapshot[1].0, pos(-1, 0));
    assert_eq!(snapshot[2].0, pos(-1, 1));
    assert_eq!(snapshot[3].0, pos(0, -1));
    assert_eq!(snapshot[4].0, pos(0, 0));
    assert_eq!(snapshot[5].0, pos(0, 1));
    assert_eq!(snapshot[6].0, pos(1, -1));
    assert_eq!(snapshot[7].0, pos(1, 0));
    assert_eq!(snapshot[8].0, pos(1, 1));
}

#[test]
fn first_move_marks_cell_and_passes_turn() {
    let mut engine = GameEngine::new();
    let events = mv(&mut engine, 0, 0);
    assert_eq!(
        events,
        vec![
            GameEvent::CellMarked { position: pos(0, 0), mark: CellState::X },
            GameEvent::TurnChanged { new_turn: CellState::O },
        ]
    );
    assert_eq!(engine.current_state(), GameState::OTurn);
    let snapshot = engine.board_snapshot();
    assert_eq!(snapshot[4], (pos(0, 0), CellState::X));
}

#[test]
fn second_move_is_o_and_turn_returns_to_x() {
    let mut engine = GameEngine::new();
    mv(&mut engine, 0, 0);
    let events = mv(&mut engine, 1, 1);
    assert_eq!(
        events,
        vec![
            GameEvent::CellMarked { position: pos(1, 1), mark: CellState::O },
            GameEvent::TurnChanged { new_turn: CellState::X },
        ]
    );
    assert_eq!(engine.current_state(), GameState::XTurn);
}

#[test]
fn turn_alternates_on_every_accepted_nonfinal_move() {
    let mut engine = GameEngine::new();
    let moves = [(-1, -1), (0, 0), (-1, 0), (1, 1)];
    for (row, col) in moves {
        let before = engine.current_state();
        mv(&mut engine, row, col);
        let after = engine.current_state();
        match before {
            GameState::XTurn => assert_eq!(after, GameState::OTurn),
            GameState::OTurn => assert_eq!(after, GameState::XTurn),
            GameState::GameOver => panic!("match ended early"),
        }
    }
}

#[test]
fn top_row_win_for_x() {
    // X takes the top row; O answers in the middle and bottom-right.
    let mut engine = GameEngine::new();
    mv(&mut engine, -1, -1);
    mv(&mut engine, 0, 0);
    mv(&mut engine, -1, 0);
    mv(&mut engine, 1, 1);
    let events = mv(&mut engine, -1, 1);
    assert_eq!(
        events,
        vec![
            GameEvent::CellMarked { position: pos(-1, 1), mark: CellState::X },
            GameEvent::GameOver {
                winner: Some(CellState::X),
                line: Some(line((-1, -1), (-1, 0), (-1, 1))),
            },
        ]
    );
    assert_eq!(engine.current_state(), GameState::GameOver);
}

#[test]
fn no_move_accepted_after_win() {
    let mut engine = GameEngine::new();
    mv(&mut engine, -1, -1);
    mv(&mut engine, 0, 0);
    mv(&mut engine, -1, 0);
    mv(&mut engine, 1, 1);
    mv(&mut engine, -1, 1);
    let snapshot = engine.board_snapshot();
    assert_eq!(engine.process_move(pos(1, -1)), Err(MoveError::GameAlreadyOver));
    assert_eq!(engine.process_move(pos(-1, -1)), Err(MoveError::GameAlreadyOver));
    assert_eq!(engine.current_state(), GameState::GameOver);
    assert_eq!(engine.board_snapshot(), snapshot);
}

#[test]
fn column_win_for_x() {
    let mut engine = GameEngine::new();
    mv(&mut engine, -1, 1);
    mv(&mut engine, -1, -1);
    mv(&mut engine, 0, 1);
    mv(&mut engine, 0, -1);
    let events = mv(&mut engine, 1, 1);
    assert_eq!(
        events[1],
        GameEvent::GameOver {
            winner: Some(CellState::X),
            line: Some(line((-1, 1), (0, 1), (1, 1))),
        }
    );
}

#[test]
fn main_diagonal_win_for_x() {
    let mut engine = GameEngine::new();
    mv(&mut engine, -1, -1);
    mv(&mut engine, -1, 0);
    mv(&mut engine, 0, 0);
    mv(&mut engine, 0, 1);
    let events = mv(&mut engine, 1, 1);
    assert_eq!(
        events[1],
        GameEvent::GameOver {
            winner: Some(CellState::X),
            line: Some(line((-1, -1), (0, 0), (1, 1))),
        }
    );
}

#[test]
fn anti_diagonal_win_for_x() {
    let mut engine = GameEngine::new();
    mv(&mut engine, -1, 1);
    mv(&mut engine, -1, -1);
    mv(&mut engine, 0, 0);
    mv(&mut engine, 0, -1);
    let events = mv(&mut engine, 1, -1);
    assert_eq!(
        events[1],
        GameEvent::GameOver {
            winner: Some(CellState::X),
            line: Some(line((-1, 1), (0, 0), (1, -1))),
        }
    );
}

#[test]
fn o_can_win_a_row() {
    let mut engine = GameEngine::new();
    mv(&mut engine, -1, -1);
    mv(&mut engine, 0, -1);
    mv(&mut engine, 1, 1);
    mv(&mut engine, 0, 0);
    mv(&mut engine, -1, 1);
    let events = mv(&mut engine, 0, 1);
    assert_eq!(
        events[1],
        GameEvent::GameOver {
            winner: Some(CellState::O),
            line: Some(line((0, -1), (0, 0), (0, 1))),
        }
    );
    assert_eq!(engine.current_state(), GameState::GameOver);
}

#[test]
fn row_reported_before_column_when_both_complete() {
    // X's last move at (-1, 1) completes the top row and the right
    // column at once; the check reports the row.
    let mut engine = GameEngine::new();
    mv(&mut engine, -1, -1);
    mv(&mut engine, 0, -1);
    mv(&mut engine, -1, 0);
    mv(&mut engine, 0, 0);
    mv(&mut engine, 0, 1);
    mv(&mut engine, 1, -1);
    mv(&mut engine, 1, 1);
    mv(&mut engine, 1, 0);
    let events = mv(&mut engine, -1, 1);
    assert_eq!(
        events[1],
        GameEvent::GameOver {
            winner: Some(CellState::X),
            line: Some(line((-1, -1), (-1, 0), (-1, 1))),
        }
    );
}

#[test]
fn full_board_without_line_is_a_draw() {
    // Final board:   X O X / X O O / O X X  -- no completed line.
    let mut engine = GameEngine::new();
    mv(&mut engine, -1, -1);
    mv(&mut engine, -1, 0);
    mv(&mut engine, -1, 1);
    mv(&mut engine, 0, 0);
    mv(&mut engine, 0, -1);
    mv(&mut engine, 0, 1);
    mv(&mut engine, 1, 0);
    mv(&mut engine, 1, -1);
    let events = mv(&mut engine, 1, 1);
    assert_eq!(
        events,
        vec![
            GameEvent::CellMarked { position: pos(1, 1), mark: CellState::X },
            GameEvent::GameOver { winner: None, line: None },
        ]
    );
    assert_eq!(engine.current_state(), GameState::GameOver);
}

#[test]
fn occupied_cell_is_rejected_twice_without_change() {
    let mut engine = GameEngine::new();
    mv(&mut engine, -1, -1);
    let state_before = engine.current_state();
    let snapshot_before = engine.board_snapshot();
    assert_eq!(engine.process_move(pos(-1, -1)), Err(MoveError::CellOccupied));
    assert_eq!(engine.current_state(), state_before);
    assert_eq!(engine.board_snapshot(), snapshot_before);
    assert_eq!(engine.process_move(pos(-1, -1)), Err(MoveError::CellOccupied));
    assert_eq!(engine.current_state(), state_before);
    assert_eq!(engine.board_snapshot(), snapshot_before);
}

#[test]
fn positions_off_the_grid_are_rejected() {
    let mut engine = GameEngine::new();
    let snapshot_before = engine.board_snapshot();
    assert_eq!(engine.process_move(pos(2, 0)), Err(MoveError::InvalidPosition));
    assert_eq!(engine.process_move(pos(0, -2)), Err(MoveError::InvalidPosition));
    assert_eq!(engine.process_move(pos(17, -42)), Err(MoveError::InvalidPosition));
    assert_eq!(engine.current_state(), GameState::XTurn);
    assert_eq!(engine.board_snapshot(), snapshot_before);
}

#[test]
fn restart_mid_game_returns_to_initial_state() {
    let mut engine = GameEngine::new();
    mv(&mut engine, 0, 0);
    mv(&mut engine, 1, 1);
    let event = engine.restart();
    assert_eq!(event, GameEvent::Restarted);
    assert_eq!(engine.current_state(), GameState::XTurn);
    for (_, mark) in engine.board_snapshot() {
        assert_eq!(mark, CellState::Empty);
    }
}

#[test]
fn restart_after_game_over_allows_a_new_match() {
    let mut engine = GameEngine::new();
    mv(&mut engine, -1, -1);
    mv(&mut engine, 0, 0);
    mv(&mut engine, -1, 0);
    mv(&mut engine, 1, 1);
    mv(&mut engine, -1, 1);
    assert_eq!(engine.current_state(), GameState::GameOver);
    let event = engine.restart();
    assert_eq!(event, GameEvent::Restarted);
    assert_eq!(engine.current_state(), GameState::XTurn);
    let events = mv(&mut engine, 1, -1);
    assert_eq!(
        events[0],
        GameEvent::CellMarked { position: pos(1, -1), mark: CellState::X }
    );
}

#[test]
fn win_check_does_not_read_the_played_cell() {
    let mut board = Board::new();
    board.set(pos(-1, -1), CellState::X);
    board.set(pos(-1, 0), CellState::X);
    // The played cell (-1, 1) is still Empty: the check treats it as
    // holding the played mark and reports the completed top row.
    let before = get_winning_positions(&board, CellState::X, pos(-1, 1));
    assert_eq!(before, Some(line((-1, -1), (-1, 0), (-1, 1))));
    // The answer is the same once the board reflects the move.
    board.set(pos(-1, 1), CellState::X);
    let after = get_winning_positions(&board, CellState::X, pos(-1, 1));
    assert_eq!(after, before);
}

#[test]
fn win_check_reports_nothing_without_a_completed_line() {
    let mut board = Board::new();
    board.set(pos(-1, -1), CellState::X);
    board.set(pos(0, 0), CellState::O);
    assert_eq!(get_winning_positions(&board, CellState::X, pos(-1, 1)), None);
    assert_eq!(get_winning_positions(&board, CellState::O, pos(1, 1)), None);
}

#[test]
fn diagonals_are_checked_only_through_the_played_cell() {
    let mut board = Board::new();
    board.set(pos(-1, -1), CellState::X);
    board.set(pos(0, 0), CellState::X);
    board.set(pos(1, 1), CellState::X);
    // (-1, 0) lies on neither diagonal, so the completed main
    // diagonal is not reported for a move there.
    assert_eq!(get_winning_positions(&board, CellState::X, pos(-1, 0)), None);
    // A move on the diagonal itself reports it.
    assert_eq!(
        get_winning_positions(&board, CellState::X, pos(0, 0)),
        Some(line((-1, -1), (0, 0), (1, 1)))
    );
}

#[test]
fn win_line_contains_its_three_cells_only() {
    let l = line((-1, -1), (0, 0), (1, 1));
    assert!(l.contains(pos(-1, -1)));
    assert!(l.contains(pos(0, 0)));
    assert!(l.contains(pos(1, 1)));
    assert!(!l.contains(pos(-1, 1)));
    assert!(!l.contains(pos(1, -1)));
}
