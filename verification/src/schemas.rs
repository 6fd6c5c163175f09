//! The plain request and response values exchanged with a boundary layer.
//!
//! These types carry no transport concerns; a boundary layer maps them to
//! and from its wire format. The row-list conversions below hold the shape
//! checks that a boundary decoder needs for the board.

use vstd::prelude::*;
use crate::game_logic::{cell, in_bounds, Board, Player, WinnerLine};

verus! {

/// A request to start a new game: a strategy name for each seat, and which
/// seat (if any) the human controls.
#[derive(Debug, Clone)]
pub struct StartGameRequest {
    pub human_player_symbol: Option<Player>,
    pub player_x_type: String,
    pub player_o_type: String,
}

/// A read-only copy of the live game's observable state.
#[derive(Debug, Clone, Copy, PartialEq, Eq)]
pub struct BoardState {
    pub board: Board,
    pub current_player: Player,
    pub winner: Option<Player>,
    pub winner_line: WinnerLine,
    pub game_over: bool,
}

/// A human move: zero-based row and column.
#[derive(Debug, Clone, Copy, PartialEq, Eq, Structural)]
pub struct MoveRequest {
    pub row: usize,
    pub col: usize,
}

/// The registered strategy display names, in registration order.
#[derive(Debug, Clone)]
pub struct AvailableAgentsResponse {
    pub agents: Vec<String>,
}

/// A failed operation, described for the caller.
#[derive(Debug, Clone)]
pub struct ErrorResponse {
    pub detail: String,
}

/// The rows are a well-shaped board: exactly 3 rows of exactly 3 cells.
pub open spec fn rows_well_shaped(rows: Seq<Vec<Player>>) -> bool {
    rows.len() == 3 && forall|i: int| 0 <= i < 3 ==> #[trigger] rows[i]@.len() == 3
}

/// Builds a board from a list of rows, as a boundary decoder hands them in,
/// rejecting any shape other than 3 rows of 3 cells.
pub fn board_from_rows(rows: &Vec<Vec<Player>>) -> (r: Result<Board, &'static str>)
    ensures
        match r {
            Ok(b) => rows_well_shaped(rows@) && forall|i: int, j: int|
                in_bounds(i, j) ==> #[trigger] cell(b, i, j) == rows@[i]@[j],
            Err(m) => {
                &&& !rows_well_shaped(rows@)
                &&& (rows@.len() != 3 ==> m@ == "Board must have 3 rows"@)
                &&& (rows@.len() == 3 ==> m@ == "Each row of the board must have 3 elements"@)
            },
        },
{
    if rows.len() != 3 {
        return Err("Board must have 3 rows");
    }
    let mut board: Board = [[Player::Empty; 3]; 3];
    let mut i: usize = 0;
    while i < 3
        invariant
            i <= 3,
            rows@.len() == 3,
            forall|t: int| 0 <= t < i ==> #[trigger] rows@[t]@.len() == 3,
            forall|t: int, j: int|
                0 <= t < i && 0 <= j < 3 ==> #[trigger] cell(board, t, j) == rows@[t]@[j],
        decreases 3 - i,
    {
        if rows[i].len() != 3 {
            return Err("Each row of the board must have 3 elements");
        }
        let mut j: usize = 0;
        while j < 3
            invariant
                i < 3,
                j <= 3,
                rows@.len() == 3,
                rows@[i as int]@.len() == 3,
                forall|t: int| 0 <= t < i ==> #[trigger] rows@[t]@.len() == 3,
                forall|t: int, u: int|
                    0 <= t < i && 0 <= u < 3 ==> #[trigger] cell(board, t, u) == rows@[t]@[u],
                forall|u: int|
                    0 <= u < j ==> #[trigger] cell(board, i as int, u) == rows@[i as int]@[u],
            decreases 3 - j,
        {
            let ghost prev = board;
            board[i][j] = rows[i][j];
            proof {
                assert(cell(board, i as int, j as int) == rows@[i as int]@[j as int]);
                assert forall|t: int, u: int|
                    0 <= t < i && 0 <= u < 3 implies #[trigger] cell(board, t, u)
                    == rows@[t]@[u] by {
                    assert(board@[t] == prev@[t]);
                    assert(cell(prev, t, u) == rows@[t]@[u]);
                }
                assert forall|u: int|
                    0 <= u < j + 1 implies #[trigger] cell(board, i as int, u)
                    == rows@[i as int]@[u] by {
                    if u < j {
                        assert(board@[i as int]@[u] == prev@[i as int]@[u]);
                        assert(cell(prev, i as int, u) == rows@[i as int]@[u]);
                    }
                }
            }
            j = j + 1;
        }
        i = i + 1;
    }
    Ok(board)
}

/// Renders a board as a list of rows, for a boundary encoder.
pub fn board_to_rows(board: &Board) -> (r: Vec<Vec<Player>>)
    ensures
        r@.len() == 3,
        forall|i: int| 0 <= i < 3 ==> #[trigger] r@[i]@.len() == 3,
        forall|i: int, j: int| in_bounds(i, j) ==> #[trigger] r@[i]@[j] == cell(*board, i, j),
{
    let mut rows: Vec<Vec<Player>> = Vec::new();
    let mut i: usize = 0;
    while i < 3
        invariant
            i <= 3,
            rows@.len() == i,
            forall|t: int| 0 <= t < i ==> #[trigger] rows@[t]@.len() == 3,
            forall|t: int, j: int|
                0 <= t < i && 0 <= j < 3 ==> #[trigger] rows@[t]@[j] == cell(*board, t, j),
        decreases 3 - i,
    {
        let mut row: Vec<Player> = Vec::new();
        let mut j: usize = 0;
        while j < 3
            invariant
                i < 3,
                j <= 3,
                row@.len() == j,
                forall|u: int| 0 <= u < j ==> #[trigger] row@[u] == cell(*board, i as int, u),
            decreases 3 - j,
        {
            row.push(board[i][j]);
            j = j + 1;
        }
        rows.push(row);
        i = i + 1;
    }
    rows
}

} // verus!
