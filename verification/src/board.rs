//! The 3x3 board: a mapping from cell positions to marks, viewed as a
//! 9-cell sequence in row-major order.

use vstd::prelude::*;

use crate::data::{BoardError, CellPosition, CellState};

verus! {

/// The mark at (row, col) of a board sequence, row-major.
pub open spec fn cell_at(b: Seq<CellState>, row: int, col: int) -> CellState {
    b[(row + 1) * 3 + (col + 1)]
}

/// The board of a fresh match: all nine cells `Empty`.
pub open spec fn empty_board() -> Seq<CellState> {
    Seq::new(9, |i: int| CellState::Empty)
}

/// The position whose row-major index is `i`.
pub open spec fn position_of_index(i: int) -> CellPosition {
    CellPosition { row: (i / 3 - 1) as i32, col: (i % 3 - 1) as i32 }
}

/// The nine cells of one match. Created all `Empty`, mutated only
/// through `set` and `reset`, and never grows or shrinks.
pub struct Board {
    cells: Vec<CellState>,
}

impl View for Board {
    type V = Seq<CellState>;

    closed spec fn view(&self) -> Seq<CellState> {
        self.cells@
    }
}

impl Board {
    /// A board is well formed when it holds exactly the nine cells.
    pub open spec fn wf(&self) -> bool {
        self@.len() == 9
    }

    /// A fresh board with every cell `Empty`.
    pub fn new() -> (b: Board)
        ensures
            b.wf(),
            b@ == empty_board(),
    {
        Board { cells: empty_cells() }
    }

    /// The mark at a position already known to be on the grid.
    pub fn mark_at(&self, pos: CellPosition) -> (r: CellState)
        requires
            self.wf(),
            pos.valid(),
        ensures
            r == cell_at(self@, pos.row as int, pos.col as int),
    {
        let idx = ((pos.row + 1) * 3 + (pos.col + 1)) as usize;
        self.cells[idx]
    }

    /// The mark at a position, or `OutOfRange` for a position off the
    /// grid. Always succeeds for the nine valid positions.
    pub fn get(&self, pos: CellPosition) -> (r: Result<CellState, BoardError>)
        requires
            self.wf(),
        ensures
            pos.valid() ==> r == Ok::<CellState, BoardError>(
                cell_at(self@, pos.row as int, pos.col as int),
            ),
            !pos.valid() ==> r == Err::<CellState, BoardError>(BoardError::OutOfRange),
    {
        if pos.is_valid() {
            Ok(self.mark_at(pos))
        } else {
            Err(BoardError::OutOfRange)
        }
    }

    /// Overwrite the mark at a valid position. The board enforces no
    /// policy here; only the engine decides when a cell may change.
    pub fn set(&mut self, pos: CellPosition, mark: CellState)
        requires
            old(self).wf(),
            pos.valid(),
        ensures
            final(self).wf(),
            final(self)@ == old(self)@.update(pos.index(), mark),
    {
        let idx = ((pos.row + 1) * 3 + (pos.col + 1)) as usize;
        self.cells[idx] = mark;
    }

    /// Whether every cell holds a mark; a full board with no winner
    /// is a draw.
    pub fn is_full(&self) -> (r: bool)
        requires
            self.wf(),
        ensures
            r == (forall|i: int| 0 <= i < 9 ==> self@[i] != CellState::Empty),
    {
        for i in 0..9usize
            invariant
                self.wf(),
                forall|j: int| 0 <= j < i ==> self@[j] != CellState::Empty,
        {
            if self.cells[i] == CellState::Empty {
                return false;
            }
        }
        true
    }

    /// Set every cell back to `Empty`.
    pub fn reset(&mut self)
        requires
            old(self).wf(),
        ensures
            final(self).wf(),
            final(self)@ == empty_board(),
    {
        self.cells = empty_cells();
    }

    /// The nine grid positions in row-major order: (-1, -1) first,
    /// (1, 1) last.
    pub fn all_positions(&self) -> (r: Vec<CellPosition>)
        ensures
            r@.len() == 9,
            forall|i: int| 0 <= i < 9 ==> r@[i] == position_of_index(i),
    {
        let mut positions: Vec<CellPosition> = Vec::new();
        for i in 0..9usize
            invariant
                positions@.len() == i,
                forall|j: int| 0 <= j < i ==> positions@[j] == position_of_index(j),
        {
            let ii = i as i32;
            positions.push(CellPosition { row: ii / 3 - 1, col: ii % 3 - 1 });
        }
        positions
    }
}

/// Nine `Empty` cells, the backing store of a fresh or reset board.
fn empty_cells() -> (v: Vec<CellState>)
    ensures
        v@ == empty_board(),
{
    let mut cells: Vec<CellState> = Vec::new();
    for i in 0..9usize
        invariant
            cells@.len() == i,
            forall|j: int| 0 <= j < i ==> cells@[j] == CellState::Empty,
    {
        cells.push(CellState::Empty);
    }
    proof {
        assert(cells@ =~= empty_board());
    }
    cells
}

} // verus!
