//! Laws of the turn state machine, stated over the specification
//! transition [`step`] and proved once and for all. Because
//! `process_move` is proved to follow `step` exactly, each law holds
//! of every sequence of calls on a well-formed engine.

use vstd::prelude::*;

use crate::board::cell_at;
use crate::data::{CellPosition, CellState, GameEvent, GameState, MoveError, mark_of_turn,
    other_turn};
use crate::engine::{board_full, run, some_line_won, step, winning_line_spec};

verus! {

/// Updating one cell leaves every other cell unchanged.
proof fn lemma_unchanged_cell(
    b: Seq<CellState>,
    pos: CellPosition,
    mark: CellState,
    row: int,
    col: int,
)
    requires
        b.len() == 9,
        pos.valid(),
        -1 <= row <= 1,
        -1 <= col <= 1,
        !(row == pos.row && col == pos.col),
    ensures
        cell_at(b.update(pos.index(), mark), row, col) == cell_at(b, row, col),
{
    assert((row + 1) * 3 + (col + 1) != (pos.row + 1) * 3 + (pos.col + 1));
}

/// Completeness of the four-line check: a move on an empty cell that
/// completes some line for a mark with no previously completed line
/// is detected by the check centered on the played cell.
pub proof fn lemma_new_win_is_detected(b: Seq<CellState>, pos: CellPosition, mark: CellState)
    requires
        b.len() == 9,
        pos.valid(),
        !some_line_won(b, mark),
        some_line_won(b.update(pos.index(), mark), mark),
    ensures
        winning_line_spec(b.update(pos.index(), mark), mark, pos) is Some,
{
    let b2 = b.update(pos.index(), mark);
    assert forall|row: int, col: int|
        -1 <= row <= 1 && -1 <= col <= 1 && !(row == pos.row && col == pos.col) implies #[trigger]
        cell_at(b2, row, col) == cell_at(b, row, col) by {
        lemma_unchanged_cell(b, pos, mark, row, col);
    }
    assert(pos.row == -1 || pos.row == 0 || pos.row == 1);
    assert(pos.col == -1 || pos.col == 0 || pos.col == 1);
}

/// Soundness of the four-line check: on a board that already holds
/// the played mark at the played cell, it reports only lines that are
/// in fact complete.
pub proof fn lemma_detected_win_is_won(b: Seq<CellState>, mark: CellState, pos: CellPosition)
    requires
        b.len() == 9,
        pos.valid(),
        cell_at(b, pos.row as int, pos.col as int) == mark,
    ensures
        winning_line_spec(b, mark, pos) is Some ==> some_line_won(b, mark),
{
    assert(b.update(pos.index(), mark) =~= b);
    assert(pos.row == -1 || pos.row == 0 || pos.row == 1);
    assert(pos.col == -1 || pos.col == 0 || pos.col == 1);
}

/// The win check never reads the played cell: overwriting the stored
/// mark there, with any value, leaves its result unchanged. The check
/// therefore answers the same before and after the board reflects the
/// move under test.
pub proof fn lemma_check_ignores_played_cell(
    b: Seq<CellState>,
    mark: CellState,
    pos: CellPosition,
    stored: CellState,
)
    requires
        b.len() == 9,
        pos.valid(),
    ensures
        winning_line_spec(b.update(pos.index(), stored), mark, pos) == winning_line_spec(
            b,
            mark,
            pos,
        ),
{
    assert(b.update(pos.index(), stored).update(pos.index(), mark) =~= b.update(
        pos.index(),
        mark,
    ));
}

/// A move on an empty cell that completes a line for the mover ends
/// the match at once: the state becomes `GameOver` and the emitted
/// events are the cell marking followed by a game-over notification
/// naming the mover as winner with a completed line.
pub proof fn lemma_winning_move_ends_game(s: GameState, b: Seq<CellState>, pos: CellPosition)
    requires
        b.len() == 9,
        s is XTurn || s is OTurn,
        pos.valid(),
        cell_at(b, pos.row as int, pos.col as int) == CellState::Empty,
        !some_line_won(b, mark_of_turn(s)),
        some_line_won(b.update(pos.index(), mark_of_turn(s)), mark_of_turn(s)),
    ensures
        ({
            let (s2, b2, r2) = step(s, b, pos);
            &&& s2 is GameOver
            &&& r2 matches Ok(events)
            &&& events.len() == 2
            &&& events[0] == GameEvent::CellMarked { position: pos, mark: mark_of_turn(s) }
            &&& events[1] matches GameEvent::GameOver { winner, line }
            &&& winner == Some(mark_of_turn(s))
            &&& line is Some
        }),
{
    lemma_new_win_is_detected(b, pos, mark_of_turn(s));
}

/// Once a match has ended, every further move is rejected with
/// `GameAlreadyOver` and neither the board nor the state changes.
pub proof fn lemma_game_over_rejects_all_moves(b: Seq<CellState>, pos: CellPosition)
    ensures
        step(GameState::GameOver, b, pos) == (
            GameState::GameOver,
            b,
            Err::<Seq<GameEvent>, MoveError>(MoveError::GameAlreadyOver),
        ),
{
}

/// A move that fills the last empty cell while completing no line for
/// the mover ends the match in a draw: `GameOver` with neither winner
/// nor line.
pub proof fn lemma_filling_board_without_win_is_draw(
    s: GameState,
    b: Seq<CellState>,
    pos: CellPosition,
)
    requires
        b.len() == 9,
        s is XTurn || s is OTurn,
        pos.valid(),
        cell_at(b, pos.row as int, pos.col as int) == CellState::Empty,
        board_full(b.update(pos.index(), mark_of_turn(s))),
        !some_line_won(b.update(pos.index(), mark_of_turn(s)), mark_of_turn(s)),
    ensures
        ({
            let (s2, b2, r2) = step(s, b, pos);
            &&& s2 is GameOver
            &&& r2 matches Ok(events)
            &&& events.len() == 2
            &&& events[0] == GameEvent::CellMarked { position: pos, mark: mark_of_turn(s) }
            &&& events[1] == GameEvent::GameOver { winner: None, line: None }
        }),
{
    let b2 = b.update(pos.index(), mark_of_turn(s));
    lemma_detected_win_is_won(b2, mark_of_turn(s), pos);
}

/// Rejection of an occupied cell is idempotent: submitting the same
/// move twice yields `CellOccupied` both times, and neither call
/// changes the board or the turn state.
pub proof fn lemma_occupied_rejection_idempotent(
    s: GameState,
    b: Seq<CellState>,
    pos: CellPosition,
)
    requires
        b.len() == 9,
        !(s is GameOver),
        pos.valid(),
        cell_at(b, pos.row as int, pos.col as int) != CellState::Empty,
    ensures
        ({
            let (s1, b1, r1) = step(s, b, pos);
            let (s2, b2, r2) = step(s1, b1, pos);
            &&& r1 == Err::<Seq<GameEvent>, MoveError>(MoveError::CellOccupied)
            &&& r2 == Err::<Seq<GameEvent>, MoveError>(MoveError::CellOccupied)
            &&& s1 == s && b1 == b
            &&& s2 == s && b2 == b
        }),
{
}

/// Placing one mark cannot complete a line for the other mark.
proof fn lemma_no_new_win_for_other_mark(
    b: Seq<CellState>,
    pos: CellPosition,
    mark: CellState,
    other: CellState,
)
    requires
        b.len() == 9,
        pos.valid(),
        mark != other,
        !some_line_won(b, other),
    ensures
        !some_line_won(b.update(pos.index(), mark), other),
{
    let b2 = b.update(pos.index(), mark);
    assert forall|row: int, col: int|
        -1 <= row <= 1 && -1 <= col <= 1 && !(row == pos.row && col == pos.col) implies #[trigger]
        cell_at(b2, row, col) == cell_at(b, row, col) by {
        lemma_unchanged_cell(b, pos, mark, row, col);
    }
    assert(cell_at(b2, pos.row as int, pos.col as int) == mark);
    assert(pos.row == -1 || pos.row == 0 || pos.row == 1);
    assert(pos.col == -1 || pos.col == 0 || pos.col == 1);
}

/// Invariant of every legal play: a fresh match followed by any
/// sequence of moves leaves a nine-cell board, and while the match is
/// still running neither mark has a completed line. This discharges,
/// for every reachable state, the premises of the move laws above.
pub proof fn lemma_no_win_while_running(moves: Seq<CellPosition>)
    ensures
        run(moves).1.len() == 9,
        !(run(moves).0 is GameOver) ==> !some_line_won(run(moves).1, CellState::X)
            && !some_line_won(run(moves).1, CellState::O),
    decreases moves.len(),
{
    if moves.len() > 0 {
        lemma_no_win_while_running(moves.drop_last());
        let (s, b) = run(moves.drop_last());
        let pos = moves.last();
        let (s2, b2, r2) = step(s, b, pos);
        if !(s is GameOver) && pos.valid() && cell_at(b, pos.row as int, pos.col as int)
            == CellState::Empty && !(s2 is GameOver) {
            let mark = mark_of_turn(s);
            let other = mark_of_turn(other_turn(s));
            lemma_detected_win_is_won(b2, mark, pos);
            if some_line_won(b2, mark) {
                lemma_new_win_is_detected(b, pos, mark);
            }
            lemma_no_new_win_for_other_mark(b, pos, mark, other);
        }
    }
}

/// The first law over whole plays: in any match still running after
/// any sequence of moves, a move on an empty cell that completes a
/// line for the mover ends the match with the mover as winner, and
/// every later move is rejected with `GameAlreadyOver`.
pub proof fn lemma_winning_move_ends_play(moves: Seq<CellPosition>, pos: CellPosition)
    requires
        !(run(moves).0 is GameOver),
        pos.valid(),
        cell_at(run(moves).1, pos.row as int, pos.col as int) == CellState::Empty,
        some_line_won(
            run(moves).1.update(pos.index(), mark_of_turn(run(moves).0)),
            mark_of_turn(run(moves).0),
        ),
    ensures
        ({
            let (s, b) = run(moves);
            let (s2, b2, r2) = step(s, b, pos);
            &&& s2 is GameOver
            &&& r2 matches Ok(events)
            &&& events.len() == 2
            &&& events[1] matches GameEvent::GameOver { winner, line }
            &&& winner == Some(mark_of_turn(s))
            &&& line is Some
        }),
        forall|later: CellPosition| #[trigger] step(run(moves.push(pos)).0, run(
            moves.push(pos),
        ).1, later).2 == Err::<Seq<GameEvent>, MoveError>(MoveError::GameAlreadyOver),
{
    lemma_no_win_while_running(moves);
    let (s, b) = run(moves);
    assert(s is XTurn || s is OTurn);
    lemma_winning_move_ends_game(s, b, pos);
    assert(moves.push(pos).drop_last() =~= moves);
    assert(run(moves.push(pos)).0 is GameOver);
}

/// Turn alternation: a move that neither completes a line nor fills
/// the board hands the turn to the other player.
pub proof fn lemma_move_alternates_turn(s: GameState, b: Seq<CellState>, pos: CellPosition)
    requires
        b.len() == 9,
        s is XTurn || s is OTurn,
        pos.valid(),
        cell_at(b, pos.row as int, pos.col as int) == CellState::Empty,
        !some_line_won(b.update(pos.index(), mark_of_turn(s)), mark_of_turn(s)),
        !board_full(b.update(pos.index(), mark_of_turn(s))),
    ensures
        step(s, b, pos).0 == other_turn(s),
        s is XTurn ==> step(s, b, pos).0 is OTurn,
        s is OTurn ==> step(s, b, pos).0 is XTurn,
{
    let b2 = b.update(pos.index(), mark_of_turn(s));
    lemma_detected_win_is_won(b2, mark_of_turn(s), pos);
}

} // verus!
