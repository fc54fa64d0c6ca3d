//! Core value types of a match: cell addresses, marks, the turn state,
//! errors, and the notifications a match emits.

use vstd::prelude::*;

verus! {

/// A cell address on the 3x3 grid. Row and column each range over
/// -1, 0, 1, with (0, 0) the center cell.
#[derive(Clone, Copy, Debug, PartialEq, Eq, Structural)]
pub struct CellPosition {
    pub row: i32,
    pub col: i32,
}

impl CellPosition {
    /// The nine grid cells are exactly the positions with row and
    /// column in -1..=1.
    pub open spec fn valid(self) -> bool {
        -1 <= self.row <= 1 && -1 <= self.col <= 1
    }

    /// Row-major index of a valid position into a 9-cell sequence:
    /// (-1, -1) is 0, (-1, 0) is 1, ..., (1, 1) is 8.
    pub open spec fn index(self) -> int {
        (self.row + 1) * 3 + (self.col + 1)
    }

    pub fn new(row: i32, col: i32) -> (p: CellPosition)
        ensures
            p.row == row,
            p.col == col,
    {
        CellPosition { row, col }
    }

    /// Whether this position addresses one of the nine grid cells.
    pub fn is_valid(&self) -> (r: bool)
        ensures
            r == self.valid(),
    {
        -1 <= self.row && self.row <= 1 && -1 <= self.col && self.col <= 1
    }
}

/// The mark occupying a cell. Every cell holds exactly one of these;
/// a fresh board holds `Empty` everywhere.
#[derive(Clone, Copy, Debug, PartialEq, Eq, Structural)]
pub enum CellState {
    Empty,
    X,
    O,
}

/// The turn state machine of a match. A match starts at `XTurn`;
/// `GameOver` is terminal until an explicit restart.
#[derive(Clone, Copy, Debug, PartialEq, Eq, Structural)]
pub enum GameState {
    XTurn,
    OTurn,
    GameOver,
}

/// The mark the player to move would place: X on X's turn, O on O's.
/// `GameOver` has no player to move, rendered as `Empty`.
pub open spec fn mark_of_turn(s: GameState) -> CellState {
    match s {
        GameState::XTurn => CellState::X,
        GameState::OTurn => CellState::O,
        GameState::GameOver => CellState::Empty,
    }
}

/// The turn after a move that neither wins nor fills the board.
pub open spec fn other_turn(s: GameState) -> GameState {
    match s {
        GameState::XTurn => GameState::OTurn,
        GameState::OTurn => GameState::XTurn,
        GameState::GameOver => GameState::GameOver,
    }
}

/// Why a move was rejected. All three are pure validation outcomes:
/// the board and the turn state are left untouched.
#[derive(Clone, Copy, Debug, PartialEq, Eq, Structural)]
pub enum MoveError {
    /// The position is not one of the nine grid cells.
    InvalidPosition,
    /// The addressed cell already holds a mark.
    CellOccupied,
    /// The match has ended; no move is accepted until a restart.
    GameAlreadyOver,
}

/// Why a board query failed.
#[derive(Clone, Copy, Debug, PartialEq, Eq, Structural)]
pub enum BoardError {
    /// The position is not one of the nine grid cells.
    OutOfRange,
}

/// The three cells of a completed line, in the fixed order the win
/// check reports them (left to right for a row, top to bottom for a
/// column or diagonal).
#[derive(Clone, Copy, Debug, PartialEq, Eq, Structural)]
pub struct WinLine {
    pub first: CellPosition,
    pub second: CellPosition,
    pub third: CellPosition,
}

impl WinLine {
    /// Whether `pos` is one of the three cells of this line.
    pub fn contains(&self, pos: CellPosition) -> (r: bool)
        ensures
            r == (self.first == pos || self.second == pos || self.third == pos),
    {
        self.first == pos || self.second == pos || self.third == pos
    }
}

/// A notification emitted by the engine when a call changes state.
/// Each successful call returns its notifications in emission order;
/// a rejected move emits none.
#[derive(Clone, Copy, Debug, PartialEq, Eq)]
pub enum GameEvent {
    /// A mark was placed on a cell.
    CellMarked { position: CellPosition, mark: CellState },
    /// The move ended no match; play passes to the other player,
    /// who will place `new_turn`.
    TurnChanged { new_turn: CellState },
    /// The match ended: a win with the completed line, or a draw
    /// with neither winner nor line.
    GameOver { winner: Option<CellState>, line: Option<WinLine> },
    /// The match was reset to an empty board with X to move.
    Restarted,
}

} // verus!
