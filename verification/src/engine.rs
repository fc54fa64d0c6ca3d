//! The turn state machine: move validation, win and draw detection,
//! state transitions, and the notifications they emit.
//!
//! The whole outcome of a move is pinned down by the specification
//! function [`step`]; the executable engine is proved to follow it.

use vstd::prelude::*;

use crate::board::{Board, cell_at, empty_board};
use crate::data::{
    CellPosition, CellState, GameEvent, GameState, MoveError, WinLine, mark_of_turn, other_turn,
};

verus! {

/// All three cells of `row` hold `mark`.
pub open spec fn row_won(b: Seq<CellState>, row: int, mark: CellState) -> bool {
    &&& cell_at(b, row, -1) == mark
    &&& cell_at(b, row, 0) == mark
    &&& cell_at(b, row, 1) == mark
}

/// All three cells of `col` hold `mark`.
pub open spec fn col_won(b: Seq<CellState>, col: int, mark: CellState) -> bool {
    &&& cell_at(b, -1, col) == mark
    &&& cell_at(b, 0, col) == mark
    &&& cell_at(b, 1, col) == mark
}

/// All three cells of the main diagonal (where row equals column)
/// hold `mark`.
pub open spec fn main_diag_won(b: Seq<CellState>, mark: CellState) -> bool {
    &&& cell_at(b, -1, -1) == mark
    &&& cell_at(b, 0, 0) == mark
    &&& cell_at(b, 1, 1) == mark
}

/// All three cells of the anti-diagonal (where row equals the negated
/// column) hold `mark`.
pub open spec fn anti_diag_won(b: Seq<CellState>, mark: CellState) -> bool {
    &&& cell_at(b, -1, 1) == mark
    &&& cell_at(b, 0, 0) == mark
    &&& cell_at(b, 1, -1) == mark
}

/// One of the eight lines of the grid holds `mark` three times.
pub open spec fn some_line_won(b: Seq<CellState>, mark: CellState) -> bool {
    ||| row_won(b, -1, mark)
    ||| row_won(b, 0, mark)
    ||| row_won(b, 1, mark)
    ||| col_won(b, -1, mark)
    ||| col_won(b, 0, mark)
    ||| col_won(b, 1, mark)
    ||| main_diag_won(b, mark)
    ||| anti_diag_won(b, mark)
}

/// Every cell holds a mark.
pub open spec fn board_full(b: Seq<CellState>) -> bool {
    forall|i: int| 0 <= i < 9 ==> b[i] != CellState::Empty
}

/// The cells of `row`, left to right.
pub open spec fn row_line(row: i32) -> WinLine {
    WinLine {
        first: CellPosition { row, col: -1i32 },
        second: CellPosition { row, col: 0i32 },
        third: CellPosition { row, col: 1i32 },
    }
}

/// The cells of `col`, top to bottom.
pub open spec fn col_line(col: i32) -> WinLine {
    WinLine {
        first: CellPosition { row: -1i32, col },
        second: CellPosition { row: 0i32, col },
        third: CellPosition { row: 1i32, col },
    }
}

/// The cells of the main diagonal, top to bottom.
pub open spec fn main_diag_line() -> WinLine {
    WinLine {
        first: CellPosition { row: -1i32, col: -1i32 },
        second: CellPosition { row: 0i32, col: 0i32 },
        third: CellPosition { row: 1i32, col: 1i32 },
    }
}

/// The cells of the anti-diagonal, top to bottom.
pub open spec fn anti_diag_line() -> WinLine {
    WinLine {
        first: CellPosition { row: -1i32, col: 1i32 },
        second: CellPosition { row: 0i32, col: 0i32 },
        third: CellPosition { row: 1i32, col: -1i32 },
    }
}

/// The line the win check reports for a move at `pos`: only the four
/// lines through the played cell are examined, in the fixed order
/// row, column, main diagonal, anti-diagonal, and the first fully
/// matched one wins. The stored mark at the played cell is never
/// consulted: the check treats that cell as holding `mark`, so it
/// gives the same answer whether it runs before or after the board
/// reflects the move.
pub open spec fn winning_line_spec(b: Seq<CellState>, mark: CellState, pos: CellPosition) -> Option<
    WinLine,
> {
    let played = b.update(pos.index(), mark);
    if row_won(played, pos.row as int, mark) {
        Some(row_line(pos.row))
    } else if col_won(played, pos.col as int, mark) {
        Some(col_line(pos.col))
    } else if pos.row == pos.col && main_diag_won(played, mark) {
        Some(main_diag_line())
    } else if pos.row + pos.col == 0 && anti_diag_won(played, mark) {
        Some(anti_diag_line())
    } else {
        None
    }
}

/// The full outcome of `process_move` on a well-formed engine: the
/// turn state and board after the call, and either the notifications
/// emitted or the error returned.
pub open spec fn step(s: GameState, b: Seq<CellState>, pos: CellPosition) -> (
    GameState,
    Seq<CellState>,
    Result<Seq<GameEvent>, MoveError>,
) {
    if s is GameOver {
        (s, b, Err(MoveError::GameAlreadyOver))
    } else if !pos.valid() {
        (s, b, Err(MoveError::InvalidPosition))
    } else if cell_at(b, pos.row as int, pos.col as int) != CellState::Empty {
        (s, b, Err(MoveError::CellOccupied))
    } else {
        let mark = mark_of_turn(s);
        let b2 = b.update(pos.index(), mark);
        let marked = GameEvent::CellMarked { position: pos, mark };
        match winning_line_spec(b2, mark, pos) {
            Some(line) => (
                GameState::GameOver,
                b2,
                Ok(
                    seq![
                        marked,
                        GameEvent::GameOver { winner: Some(mark), line: Some(line) },
                    ],
                ),
            ),
            None => if board_full(b2) {
                (
                    GameState::GameOver,
                    b2,
                    Ok(seq![marked, GameEvent::GameOver { winner: None, line: None }]),
                )
            } else {
                (
                    other_turn(s),
                    b2,
                    Ok(
                        seq![
                            marked,
                            GameEvent::TurnChanged { new_turn: mark_of_turn(other_turn(s)) },
                        ],
                    ),
                )
            },
        }
    }
}

/// The turn state and board reached by feeding `moves`, in order, to
/// a fresh match. Rejected moves change nothing, so every sequence of
/// positions describes a legal play.
pub open spec fn run(moves: Seq<CellPosition>) -> (GameState, Seq<CellState>)
    decreases moves.len(),
{
    if moves.len() == 0 {
        (GameState::XTurn, empty_board())
    } else {
        let (s, b) = run(moves.drop_last());
        let (s2, b2, r2) = step(s, b, moves.last());
        (s2, b2)
    }
}

/// Whether an executable move result carries exactly the events (or
/// the error) of a specification-level one.
pub open spec fn result_matches(
    r: Result<Vec<GameEvent>, MoveError>,
    r2: Result<Seq<GameEvent>, MoveError>,
) -> bool {
    match (r, r2) {
        (Ok(events), Ok(events2)) => events@ == events2,
        (Err(e), Err(e2)) => e == e2,
        _ => false,
    }
}

/// The line completed by the move just played at `pos` with `mark`,
/// if any. Only the four lines through `pos` are examined, in the
/// fixed order row, column, main diagonal, anti-diagonal. The played
/// cell itself is never read (only the other two cells of each line
/// are tested), so the check works the same whether the board already
/// reflects the move or not.
pub fn get_winning_positions(
    board: &Board,
    picked_state: CellState,
    picked_pos: CellPosition,
) -> (r: Option<WinLine>)
    requires
        board.wf(),
        picked_pos.valid(),
    ensures
        r == winning_line_spec(board@, picked_state, picked_pos),
{
    let row = picked_pos.row;
    let col = picked_pos.col;

    // Check the played row: the two cells other than the played one
    if (col == -1 || board.mark_at(CellPosition { row, col: -1 }) == picked_state)
        && (col == 0 || board.mark_at(CellPosition { row, col: 0 }) == picked_state)
        && (col == 1 || board.mark_at(CellPosition { row, col: 1 }) == picked_state) {
        return Some(
            WinLine {
                first: CellPosition { row, col: -1 },
                second: CellPosition { row, col: 0 },
                third: CellPosition { row, col: 1 },
            },
        );
    }

    // Check the played column
    if (row == -1 || board.mark_at(CellPosition { row: -1, col }) == picked_state)
        && (row == 0 || board.mark_at(CellPosition { row: 0, col }) == picked_state)
        && (row == 1 || board.mark_at(CellPosition { row: 1, col }) == picked_state) {
        return Some(
            WinLine {
                first: CellPosition { row: -1, col },
                second: CellPosition { row: 0, col },
                third: CellPosition { row: 1, col },
            },
        );
    }

    // Check the main diagonal, which passes through pos only when
    // row == col; on it, the played cell is (row, row)
    if row == col && (row == -1 || board.mark_at(CellPosition { row: -1, col: -1 })
        == picked_state) && (row == 0 || board.mark_at(CellPosition { row: 0, col: 0 })
        == picked_state) && (row == 1 || board.mark_at(CellPosition { row: 1, col: 1 })
        == picked_state) {
        return Some(
            WinLine {
                first: CellPosition { row: -1, col: -1 },
                second: CellPosition { row: 0, col: 0 },
                third: CellPosition { row: 1, col: 1 },
            },
        );
    }

    // Check the anti-diagonal, which passes through pos only when
    // row == -col; on it, the played cell is (row, -row)
    if row + col == 0 && (row == -1 || board.mark_at(CellPosition { row: -1, col: 1 })
        == picked_state) && (row == 0 || board.mark_at(CellPosition { row: 0, col: 0 })
        == picked_state) && (row == 1 || board.mark_at(CellPosition { row: 1, col: -1 })
        == picked_state) {
        return Some(
            WinLine {
                first: CellPosition { row: -1, col: 1 },
                second: CellPosition { row: 0, col: 0 },
                third: CellPosition { row: 1, col: -1 },
            },
        );
    }

    None
}

/// The authoritative state of one match: the board and whose turn it
/// is. Both are owned exclusively by the engine and change only
/// through `process_move` and `restart`.
pub struct GameEngine {
    board: Board,
    state: GameState,
}

impl GameEngine {
    /// The marks on the board, as a row-major 9-cell sequence.
    pub closed spec fn board_state(&self) -> Seq<CellState> {
        self.board@
    }

    /// The current turn state.
    pub closed spec fn turn(&self) -> GameState {
        self.state
    }

    /// An engine is well formed when its board holds the nine cells.
    pub open spec fn wf(&self) -> bool {
        self.board_state().len() == 9
    }

    /// A fresh match: an all-`Empty` board with X to move.
    pub fn new() -> (e: GameEngine)
        ensures
            e.wf(),
            e.turn() == GameState::XTurn,
            e.board_state() == empty_board(),
    {
        GameEngine { board: Board::new(), state: GameState::XTurn }
    }

    /// The current turn state, for a host to render turn indicators.
    pub fn current_state(&self) -> (s: GameState)
        ensures
            s == self.turn(),
    {
        self.state
    }

    /// The mark of every cell, paired with its position, in row-major
    /// order.
    pub fn board_snapshot(&self) -> (r: Vec<(CellPosition, CellState)>)
        requires
            self.wf(),
        ensures
            r@.len() == 9,
            forall|i: int| 0 <= i < 9 ==> r@[i].0 == crate::board::position_of_index(i)
                && r@[i].1 == self.board_state()[i],
    {
        let positions = self.board.all_positions();
        let mut snapshot: Vec<(CellPosition, CellState)> = Vec::new();
        for i in 0..9usize
            invariant
                self.wf(),
                positions@.len() == 9,
                forall|j: int| 0 <= j < 9 ==> positions@[j] == crate::board::position_of_index(j),
                snapshot@.len() == i,
                forall|j: int| 0 <= j < i ==> #[trigger] snapshot@[j].0
                    == crate::board::position_of_index(j),
                forall|j: int| 0 <= j < i ==> #[trigger] snapshot@[j].1
                    == self.board_state()[j],
        {
            let pos = positions[i];
            proof {
                assert(pos == crate::board::position_of_index(i as int));
                assert(pos.valid());
                assert(pos.index() == i as int);
            }
            let mark = self.board.mark_at(pos);
            snapshot.push((pos, mark));
        }
        snapshot
    }

    /// Process one "cell chosen" input: validate it, place the mark,
    /// run win and draw detection, advance the turn state machine,
    /// and return the notifications in emission order. A rejected
    /// move changes nothing and emits nothing. The whole outcome
    /// equals [`step`] on the state before the call.
    pub fn process_move(&mut self, pos: CellPosition) -> (r: Result<Vec<GameEvent>, MoveError>)
        requires
            old(self).wf(),
        ensures
            final(self).wf(),
            ({
                let (s2, b2, r2) = step(old(self).turn(), old(self).board_state(), pos);
                &&& final(self).turn() == s2
                &&& final(self).board_state() == b2
                &&& result_matches(r, r2)
            }),
            r is Err ==> final(self).turn() == old(self).turn() && final(self).board_state()
                == old(self).board_state(),
    {
        if self.state == GameState::GameOver {
            return Err(MoveError::GameAlreadyOver);
        }
        if !pos.is_valid() {
            return Err(MoveError::InvalidPosition);
        }
        if self.board.mark_at(pos) != CellState::Empty {
            return Err(MoveError::CellOccupied);
        }

        let mark = if self.state == GameState::XTurn {
            CellState::X
        } else {
            CellState::O
        };
        self.board.set(pos, mark);

        let mut events: Vec<GameEvent> = Vec::new();
        events.push(GameEvent::CellMarked { position: pos, mark });

        match get_winning_positions(&self.board, mark, pos) {
            Some(line) => {
                self.state = GameState::GameOver;
                events.push(GameEvent::GameOver { winner: Some(mark), line: Some(line) });
            },
            None => {
                if self.board.is_full() {
                    self.state = GameState::GameOver;
                    events.push(GameEvent::GameOver { winner: None, line: None });
                } else {
                    let next = if self.state == GameState::XTurn {
                        GameState::OTurn
                    } else {
                        GameState::XTurn
                    };
                    self.state = next;
                    events.push(
                        GameEvent::TurnChanged {
                            new_turn: if next == GameState::XTurn {
                                CellState::X
                            } else {
                                CellState::O
                            },
                        },
                    );
                }
            },
        }
        proof {
            let (s2, b2, r2) = step(old(self).turn(), old(self).board_state(), pos);
            assert(events@ =~= r2->Ok_0);
        }
        Ok(events)
    }

    /// Abandon the current match, whatever its state: every cell back
    /// to `Empty`, X to move, and a `Restarted` notification.
    pub fn restart(&mut self) -> (e: GameEvent)
        requires
            old(self).wf(),
        ensures
            final(self).wf(),
            final(self).turn() == GameState::XTurn,
            final(self).board_state() == empty_board(),
            e == GameEvent::Restarted,
    {
        self.board.reset();
        self.state = GameState::XTurn;
        GameEvent::Restarted
    }
}

} // verus!
