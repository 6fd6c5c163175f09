//! Board rules and the game state machine for one tic-tac-toe match.
//!
//! The board model is a fixed 3x3 grid of [`Player`] marks. All rule
//! functions here are total: win detection, draw detection and legal-move
//! enumeration never fail, and move application reports rule violations as
//! [`GameError`] values instead of panicking.

use vstd::prelude::*;
use vstd::string::StringExecFns;
use crate::agents::SeatAgent;

verus! {

/// A cell value or match participant. `Empty` marks an empty cell, and also
/// stands for a drawn match when it appears as a winner.
#[derive(Debug, Clone, Copy, PartialEq, Eq, Structural)]
pub enum Player {
    X,
    O,
    Empty,
}

/// The fixed 3x3 grid of cell values.
pub type Board = [[Player; 3]; 3];

/// A zero-based (row, column) coordinate pair.
pub type Move = (usize, usize);

/// The three coordinates of a completed line, when a match was won.
pub type WinnerLine = Option<[(usize, usize); 3]>;

/// Why an operation on the match was rejected. All variants are recoverable
/// by the caller; none aborts the process.
#[derive(Debug, Clone, Copy, PartialEq, Eq, Structural)]
pub enum GameError {
    /// A move was attempted after the game ended.
    AlreadyOver,
    /// A move coordinate was 3 or more.
    OutOfBounds,
    /// The target cell already holds a mark.
    CellOccupied,
    /// A game start referenced a strategy name that is not registered.
    UnknownStrategy,
    /// State or a move was requested before any game was started.
    NoGameStarted,
}

pub open spec fn message_of(e: GameError) -> Seq<char> {
    match e {
        GameError::AlreadyOver => "Game is already over."@,
        GameError::OutOfBounds => "Move is out of board bounds."@,
        GameError::CellOccupied => "Cell is already occupied."@,
        GameError::UnknownStrategy => "Unknown agent type"@,
        GameError::NoGameStarted => "Game not started"@,
    }
}

impl GameError {
    /// The human-readable message the service reports for this error.
    pub fn message(&self) -> (r: &'static str)
        ensures
            r@ == message_of(*self),
    {
        match self {
            GameError::AlreadyOver => "Game is already over.",
            GameError::OutOfBounds => "Move is out of board bounds.",
            GameError::CellOccupied => "Cell is already occupied.",
            GameError::UnknownStrategy => "Unknown agent type",
            GameError::NoGameStarted => "Game not started",
        }
    }
}

pub open spec fn opponent_of(p: Player) -> Player {
    match p {
        Player::X => Player::O,
        Player::O => Player::X,
        Player::Empty => Player::Empty,
    }
}

pub open spec fn symbol_of(p: Player) -> Seq<char> {
    match p {
        Player::X => "X"@,
        Player::O => "O"@,
        Player::Empty => " "@,
    }
}

/// The texts accepted as a player mark: the two marks, and the empty-cell
/// spellings (space, dot, empty text).
pub open spec fn valid_player_text(s: Seq<char>) -> bool {
    s == "X"@ || s == "O"@ || s == " "@ || s == "."@ || s.len() == 0
}

pub open spec fn player_of_text(s: Seq<char>) -> Player {
    if s == "X"@ {
        Player::X
    } else if s == "O"@ {
        Player::O
    } else {
        Player::Empty
    }
}

/// True when the two texts hold the same characters.
pub(crate) fn str_eq(a: &str, b: &str) -> (r: bool)
    ensures
        r == (a@ == b@),
{
    let sa: String = a.to_owned();
    let sb: String = b.to_owned();
    sa.eq(&sb)
}

impl Player {
    /// The participant who moves after `self`; `Empty` has no opponent.
    pub fn opponent(&self) -> (r: Player)
        ensures
            r == opponent_of(*self),
    {
        match self {
            Player::X => Player::O,
            Player::O => Player::X,
            Player::Empty => Player::Empty,
        }
    }

    /// The single-character text this mark is rendered as. An empty cell
    /// (and hence a drawn match) renders as one space.
    pub fn symbol(&self) -> (r: &'static str)
        ensures
            r@ == symbol_of(*self),
    {
        match self {
            Player::X => "X",
            Player::O => "O",
            Player::Empty => " ",
        }
    }

    /// Parses a player mark from its text form.
    pub fn from_symbol(s: &str) -> (r: Result<Player, String>)
        ensures
            match r {
                Ok(p) => valid_player_text(s@) && p == player_of_text(s@),
                Err(m) => !valid_player_text(s@) && m@ == "Invalid player string: "@ + s@,
            },
    {
        if str_eq(s, "X") {
            Ok(Player::X)
        } else if str_eq(s, "O") {
            Ok(Player::O)
        } else if str_eq(s, " ") || str_eq(s, ".") || s.is_empty() {
            Ok(Player::Empty)
        } else {
            Err("Invalid player string: ".to_owned().concat(s))
        }
    }
}

impl core::str::FromStr for Player {
    type Err = String;

    fn from_str(s: &str) -> Result<Player, String> {
        Player::from_symbol(s)
    }
}

/// The mark in row `r`, column `c` of the board.
pub open spec fn cell(b: Board, r: int, c: int) -> Player {
    b@[r]@[c]
}

pub open spec fn in_bounds(r: int, c: int) -> bool {
    0 <= r < 3 && 0 <= c < 3
}

pub open spec fn board_full(b: Board) -> bool {
    forall|r: int, c: int| in_bounds(r, c) ==> #[trigger] cell(b, r, c) != Player::Empty
}

/// The move targets a cell on the board that is still empty.
pub open spec fn legal_move(b: Board, m: Move) -> bool {
    m.0 < 3 && m.1 < 3 && cell(b, m.0 as int, m.1 as int) == Player::Empty
}

/// The position of a move in row-major scan order.
pub open spec fn row_major(m: Move) -> int {
    m.0 * 3 + m.1
}

/// The coordinates of the `k`-th of the 8 fixed lines, in scan priority
/// order: the three rows top to bottom, the three columns left to right,
/// then the two diagonals.
pub open spec fn line_seq(k: int) -> Seq<(usize, usize)> {
    if k == 0 {
        seq![(0usize, 0usize), (0usize, 1usize), (0usize, 2usize)]
    } else if k == 1 {
        seq![(1usize, 0usize), (1usize, 1usize), (1usize, 2usize)]
    } else if k == 2 {
        seq![(2usize, 0usize), (2usize, 1usize), (2usize, 2usize)]
    } else if k == 3 {
        seq![(0usize, 0usize), (1usize, 0usize), (2usize, 0usize)]
    } else if k == 4 {
        seq![(0usize, 1usize), (1usize, 1usize), (2usize, 1usize)]
    } else if k == 5 {
        seq![(0usize, 2usize), (1usize, 2usize), (2usize, 2usize)]
    } else if k == 6 {
        seq![(0usize, 0usize), (1usize, 1usize), (2usize, 2usize)]
    } else {
        seq![(0usize, 2usize), (1usize, 1usize), (2usize, 0usize)]
    }
}

/// The mark under the `j`-th cell of line `k`.
pub open spec fn line_mark(b: Board, k: int, j: int) -> Player {
    cell(b, line_seq(k)[j].0 as int, line_seq(k)[j].1 as int)
}

/// Line `k` holds three equal marks of one participant.
pub open spec fn line_complete(b: Board, k: int) -> bool {
    &&& line_mark(b, k, 0) != Player::Empty
    &&& line_mark(b, k, 0) == line_mark(b, k, 1)
    &&& line_mark(b, k, 1) == line_mark(b, k, 2)
}

pub open spec fn has_winner(b: Board) -> bool {
    exists|k: int| 0 <= k < 8 && #[trigger] line_complete(b, k)
}

/// Line `k` is complete and owned by `p`.
pub open spec fn line_won_by(b: Board, k: int, p: Player) -> bool {
    line_complete(b, k) && line_mark(b, k, 0) == p
}

/// Relates a board to the winner and line that detection reports: the mark
/// owning the earliest complete line, with that line's exact coordinates,
/// or nothing at all when no line is complete.
pub open spec fn winner_verdict(b: Board, w: Option<Player>, l: WinnerLine) -> bool {
    match w {
        Some(p) => exists|k: int|
            {
                &&& 0 <= k < 8
                &&& #[trigger] line_complete(b, k)
                &&& forall|j: int| 0 <= j < k ==> !line_complete(b, j)
                &&& p == line_mark(b, k, 0)
                &&& l matches Some(arr) && arr@ =~= line_seq(k)
            },
        None => l is None && !has_winner(b),
    }
}

/// How many of the first `n` cells in row-major order hold a mark.
pub open spec fn occupied_in_prefix(b: Board, n: int) -> int
    decreases n,
{
    if n <= 0 {
        0
    } else {
        occupied_in_prefix(b, n - 1) + if cell(b, (n - 1) / 3, (n - 1) % 3) != Player::Empty {
            1int
        } else {
            0int
        }
    }
}

/// How many of the 9 cells hold a mark.
pub open spec fn occupied_count(b: Board) -> int {
    occupied_in_prefix(b, 9)
}

/// `b2` equals `b1` except that cell (`r`, `c`) now holds `p`.
pub open spec fn board_updated(b1: Board, b2: Board, r: int, c: int, p: Player) -> bool {
    &&& cell(b2, r, c) == p
    &&& forall|i: int, j: int|
        in_bounds(i, j) && (i != r || j != c) ==> #[trigger] cell(b2, i, j) == cell(b1, i, j)
}

pub proof fn lemma_occupied_prefix_bounds(b: Board, n: int)
    requires
        0 <= n <= 9,
    ensures
        0 <= occupied_in_prefix(b, n) <= n,
    decreases n,
{
    if n > 0 {
        lemma_occupied_prefix_bounds(b, n - 1);
    }
}

proof fn lemma_occupied_prefix_update(b1: Board, b2: Board, r: int, c: int, p: Player, n: int)
    requires
        in_bounds(r, c),
        cell(b1, r, c) == Player::Empty,
        p != Player::Empty,
        board_updated(b1, b2, r, c, p),
        0 <= n <= 9,
    ensures
        occupied_in_prefix(b2, n) == occupied_in_prefix(b1, n) + if 3 * r + c < n {
            1int
        } else {
            0int
        },
    decreases n,
{
    if n > 0 {
        lemma_occupied_prefix_update(b1, b2, r, c, p, n - 1);
        let i = (n - 1) / 3;
        let j = (n - 1) % 3;
        assert(3 * i + j == n - 1 && 0 <= j < 3);
        if i == r && j == c {
            assert(n - 1 == 3 * r + c);
        } else {
            assert(3 * r + c != n - 1);
            assert(cell(b2, i, j) == cell(b1, i, j));
        }
    }
}

/// Marking an empty cell raises the occupied-cell count by exactly one.
pub proof fn lemma_occupied_update(b1: Board, b2: Board, r: int, c: int, p: Player)
    requires
        in_bounds(r, c),
        cell(b1, r, c) == Player::Empty,
        p != Player::Empty,
        board_updated(b1, b2, r, c, p),
    ensures
        occupied_count(b2) == occupied_count(b1) + 1,
{
    lemma_occupied_prefix_update(b1, b2, r, c, p, 9);
}

proof fn lemma_occupied_prefix_congruence(b1: Board, b2: Board, n: int)
    requires
        forall|i: int, j: int| in_bounds(i, j) ==> #[trigger] cell(b2, i, j) == cell(b1, i, j),
        0 <= n <= 9,
    ensures
        occupied_in_prefix(b2, n) == occupied_in_prefix(b1, n),
    decreases n,
{
    if n > 0 {
        lemma_occupied_prefix_congruence(b1, b2, n - 1);
        let i = (n - 1) / 3;
        let j = (n - 1) % 3;
        assert(3 * i + j == n - 1 && 0 <= j < 3);
        assert(cell(b2, i, j) == cell(b1, i, j));
    }
}

proof fn lemma_push_keeps_contains(s: Seq<Move>, e: Move, x: Move)
    requires
        s.contains(x),
    ensures
        s.push(e).contains(x),
{
    let t = choose|t: int| 0 <= t < s.len() && s[t] == x;
    assert(s.push(e)[t] == x);
}

proof fn lemma_prefix_step(b: Board, r: int, c: int)
    requires
        in_bounds(r, c),
    ensures
        occupied_in_prefix(b, 3 * r + c + 1) == occupied_in_prefix(b, 3 * r + c) + if cell(
            b,
            r,
            c,
        ) != Player::Empty {
            1int
        } else {
            0int
        },
{
    let n = 3 * r + c + 1;
    assert((n - 1) / 3 == r && (n - 1) % 3 == c);
}

/// All empty cells of the board, in row-major order. This is the single
/// candidate pool for strategies and for move validation.
pub fn legal_moves(board: &Board) -> (r: Vec<Move>)
    ensures
        r@.len() + occupied_count(*board) == 9,
        forall|t: int| 0 <= t < r@.len() ==> legal_move(*board, #[trigger] r@[t]),
        forall|i: int, j: int|
            in_bounds(i, j) && #[trigger] cell(*board, i, j) == Player::Empty ==> r@.contains(
                (i as usize, j as usize),
            ),
        forall|t1: int, t2: int|
            0 <= t1 < t2 < r@.len() ==> row_major(#[trigger] r@[t1]) < row_major(
                #[trigger] r@[t2],
            ),
        r@.len() == 0 <==> board_full(*board),
{
    let mut moves: Vec<Move> = Vec::new();
    let mut rr: usize = 0;
    while rr < 3
        invariant
            rr <= 3,
            moves@.len() + occupied_in_prefix(*board, 3 * rr) == 3 * rr,
            forall|t: int|
                0 <= t < moves@.len() ==> legal_move(*board, #[trigger] moves@[t]) && row_major(
                    moves@[t],
                ) < 3 * rr,
            forall|i: int, j: int|
                0 <= i < rr && 0 <= j < 3 && #[trigger] cell(*board, i, j) == Player::Empty
                    ==> moves@.contains((i as usize, j as usize)),
            forall|t1: int, t2: int|
                0 <= t1 < t2 < moves@.len() ==> row_major(#[trigger] moves@[t1]) < row_major(
                    #[trigger] moves@[t2],
                ),
        decreases 3 - rr,
    {
        let mut cc: usize = 0;
        while cc < 3
            invariant
                rr < 3,
                cc <= 3,
                moves@.len() + occupied_in_prefix(*board, 3 * rr + cc) == 3 * rr + cc,
                forall|t: int|
                    0 <= t < moves@.len() ==> legal_move(*board, #[trigger] moves@[t])
                        && row_major(moves@[t]) < 3 * rr + cc,
                forall|i: int, j: int|
                    0 <= i < rr && 0 <= j < 3 && #[trigger] cell(*board, i, j) == Player::Empty
                        ==> moves@.contains((i as usize, j as usize)),
                forall|j: int|
                    0 <= j < cc && #[trigger] cell(*board, rr as int, j) == Player::Empty
                        ==> moves@.contains((rr, j as usize)),
                forall|t1: int, t2: int|
                    0 <= t1 < t2 < moves@.len() ==> row_major(#[trigger] moves@[t1]) < row_major(
                        #[trigger] moves@[t2],
                    ),
            decreases 3 - cc,
        {
            proof {
                lemma_prefix_step(*board, rr as int, cc as int);
            }
            let ghost prev = moves@;
            if board[rr][cc] == Player::Empty {
                moves.push((rr, cc));
                proof {
                    assert forall|i: int, j: int|
                        0 <= i < rr && 0 <= j < 3 && #[trigger] cell(*board, i, j)
                            == Player::Empty implies moves@.contains((i as usize, j as usize)) by {
                        lemma_push_keeps_contains(prev, (rr, cc), (i as usize, j as usize));
                    }
                    assert forall|j: int|
                        0 <= j < cc + 1 && #[trigger] cell(*board, rr as int, j)
                            == Player::Empty implies moves@.contains((rr, j as usize)) by {
                        if j < cc {
                            lemma_push_keeps_contains(prev, (rr, cc), (rr, j as usize));
                        } else {
                            assert(moves@[moves@.len() - 1] == (rr, cc));
                        }
                    }
                }
            }
            cc = cc + 1;
        }
        rr = rr + 1;
    }
    proof {
        if moves@.len() == 0 {
            assert forall|i: int, j: int| in_bounds(i, j) implies #[trigger] cell(*board, i, j)
                != Player::Empty by {
                if cell(*board, i, j) == Player::Empty {
                    assert(moves@.contains((i as usize, j as usize)));
                }
            }
        }
        if moves@.len() > 0 {
            assert(legal_move(*board, moves@[0]));
            let m = moves@[0];
            assert(cell(*board, m.0 as int, m.1 as int) == Player::Empty);
        }
    }
    moves
}

/// One in-progress (or finished) match: the board, whose turn it is,
/// whether and how it ended, and the strategy bound to each seat.
#[derive(Debug, Clone, Copy)]
pub struct TicTacToe {
    pub board: Board,
    pub current_player: Player,
    pub winner: Option<Player>,
    pub winner_line: WinnerLine,
    pub game_over: bool,
    pub agent_x: Option<SeatAgent>,
    pub agent_o: Option<SeatAgent>,
    pub human_player: Option<Player>,
}

/// `g` is a freshly created match: empty board, X to move, not ended, with
/// the given seat bindings.
pub open spec fn fresh_game(
    g: TicTacToe,
    agent_x: Option<SeatAgent>,
    agent_o: Option<SeatAgent>,
    human_player: Option<Player>,
) -> bool {
    &&& forall|r: int, c: int| in_bounds(r, c) ==> #[trigger] cell(g.board, r, c) == Player::Empty
    &&& g.current_player == Player::X
    &&& g.winner is None
    &&& g.winner_line is None
    &&& !g.game_over
    &&& g.agent_x == agent_x
    &&& g.agent_o == agent_o
    &&& g.human_player == human_player
}

/// The strategy bound to the given seat, if any.
pub open spec fn seat_agent(g: TicTacToe, p: Player) -> Option<SeatAgent> {
    match p {
        Player::X => g.agent_x,
        Player::O => g.agent_o,
        Player::Empty => None,
    }
}

/// Why a move on `g` at (`row`, `col`) is rejected, or `None` when it is
/// accepted. The checks apply in this order: game over, bounds, occupancy.
pub open spec fn move_error(g: TicTacToe, row: int, col: int) -> Option<GameError> {
    if g.game_over {
        Some(GameError::AlreadyOver)
    } else if !in_bounds(row, col) {
        Some(GameError::OutOfBounds)
    } else if cell(g.board, row, col) != Player::Empty {
        Some(GameError::CellOccupied)
    } else {
        None
    }
}

/// The seat bindings and the human-seat marker never change over a match.
pub open spec fn bindings_kept(pre: TicTacToe, post: TicTacToe) -> bool {
    &&& post.agent_x == pre.agent_x
    &&& post.agent_o == pre.agent_o
    &&& post.human_player == pre.human_player
}

/// The effect of re-evaluating the terminal state on the current board:
/// a completed line records its owner as winner, a full board without one
/// records a draw, and otherwise nothing changes.
pub open spec fn state_checked(pre: TicTacToe, post: TicTacToe) -> bool {
    &&& post.board == pre.board
    &&& post.current_player == pre.current_player
    &&& bindings_kept(pre, post)
    &&& if has_winner(pre.board) {
        &&& post.game_over
        &&& winner_verdict(pre.board, post.winner, post.winner_line)
        &&& post.winner is Some
    } else if board_full(pre.board) {
        &&& post.game_over
        &&& post.winner == Some(Player::Empty)
        &&& post.winner_line == pre.winner_line
    } else {
        &&& post.game_over == pre.game_over
        &&& post.winner == pre.winner
        &&& post.winner_line == pre.winner_line
    }
}

/// The effect of an accepted move at (`row`, `col`): the mover's mark is
/// written, the terminal state re-evaluated, and the turn passes to the
/// opponent only if the game did not just end.
pub open spec fn move_applied(pre: TicTacToe, post: TicTacToe, row: int, col: int) -> bool {
    &&& board_updated(pre.board, post.board, row, col, pre.current_player)
    &&& bindings_kept(pre, post)
    &&& (pre.current_player != Player::Empty ==> occupied_count(post.board) == occupied_count(
        pre.board,
    ) + 1)
    &&& (pre.current_player == Player::Empty ==> occupied_count(post.board) == occupied_count(
        pre.board,
    ))
    &&& if has_winner(post.board) {
        &&& post.game_over
        &&& winner_verdict(post.board, post.winner, post.winner_line)
        &&& post.winner is Some
        &&& post.current_player == pre.current_player
    } else if board_full(post.board) {
        &&& post.game_over
        &&& post.winner == Some(Player::Empty)
        &&& post.winner_line == pre.winner_line
        &&& post.current_player == pre.current_player
    } else {
        &&& !post.game_over
        &&& post.winner == pre.winner
        &&& post.winner_line == pre.winner_line
        &&& post.current_player == opponent_of(pre.current_player)
    }
}

/// The human-seat marker names the seat that is to move.
pub open spec fn is_human_turn(g: TicTacToe) -> bool {
    g.human_player == Some(g.current_player)
}

impl TicTacToe {
    /// A fresh match: empty board, X to move, with the given seat bindings.
    pub fn new(
        agent_x: Option<SeatAgent>,
        agent_o: Option<SeatAgent>,
        human_player: Option<Player>,
    ) -> (g: TicTacToe)
        ensures
            fresh_game(g, agent_x, agent_o, human_player),
    {
        TicTacToe {
            board: [[Player::Empty; 3]; 3],
            current_player: Player::X,
            winner: None,
            winner_line: None,
            game_over: false,
            agent_x,
            agent_o,
            human_player,
        }
    }

    /// Applies the current seat's mark at (`row`, `col`), or reports exactly
    /// why the move is rejected, leaving the match untouched.
    pub fn make_move(&mut self, row: usize, col: usize) -> (r: Result<(), GameError>)
        ensures
            match move_error(*old(self), row as int, col as int) {
                Some(e) => r == Err::<(), GameError>(e) && *final(self) == *old(self),
                None => r == Ok::<(), GameError>(()) && move_applied(
                    *old(self),
                    *final(self),
                    row as int,
                    col as int,
                ),
            },
    {
        if self.game_over {
            return Err(GameError::AlreadyOver);
        }
        if row >= 3 || col >= 3 {
            return Err(GameError::OutOfBounds);
        }
        if self.board[row][col] != Player::Empty {
            return Err(GameError::CellOccupied);
        }
        let ghost pre = *self;
        let mark = self.current_player;
        self.board[row][col] = mark;
        proof {
            assert(board_updated(pre.board, self.board, row as int, col as int, mark));
            if mark != Player::Empty {
                lemma_occupied_update(pre.board, self.board, row as int, col as int, mark);
            } else {
                assert forall|i: int, j: int| in_bounds(i, j) implies #[trigger] cell(
                    self.board,
                    i,
                    j,
                ) == cell(pre.board, i, j) by {}
                lemma_occupied_prefix_congruence(pre.board, self.board, 9);
            }
        }
        self.check_game_state();
        if !self.game_over {
            self.switch_player();
        }
        Ok(())
    }

    /// Passes the turn to the opponent of the current seat.
    pub fn switch_player(&mut self)
        ensures
            final(self).current_player == opponent_of(old(self).current_player),
            final(self).board == old(self).board,
            final(self).winner == old(self).winner,
            final(self).winner_line == old(self).winner_line,
            final(self).game_over == old(self).game_over,
            bindings_kept(*old(self), *final(self)),
    {
        self.current_player = self.current_player.opponent();
    }

    /// Re-evaluates the terminal state of the current board: records the
    /// winner of the first completed line, or a draw on a full board.
    pub fn check_game_state(&mut self)
        ensures
            state_checked(*old(self), *final(self)),
    {
        let verdict = TicTacToe::check_winner_logic(&self.board);
        match verdict.0 {
            Some(p) => {
                self.winner = Some(p);
                self.winner_line = verdict.1;
                self.game_over = true;
            },
            None => {
                if self.is_board_full() {
                    self.winner = Some(Player::Empty);
                    self.game_over = true;
                }
            },
        }
    }

    /// Scans the 8 fixed lines in priority order (rows top to bottom,
    /// columns left to right, the two diagonals) and returns the first
    /// completed line's owner and coordinates, or `(None, None)`.
    pub fn check_winner_logic(board: &Board) -> (r: (Option<Player>, WinnerLine))
        ensures
            winner_verdict(*board, r.0, r.1),
            r.0 is Some <==> has_winner(*board),
            r.0 matches Some(p) ==> (p != Player::Empty && (r.1 matches Some(arr) && exists|k: int|
                0 <= k < 8 && #[trigger] line_won_by(*board, k, p) && arr@ =~= line_seq(k))),
    {
        let b = board;
        if b[0][0] != Player::Empty && b[0][0] == b[0][1] && b[0][1] == b[0][2] {
            proof {
                assert(line_complete(*board, 0));
                assert(line_won_by(*board, 0, line_mark(*board, 0, 0)));
            }
            return (Some(b[0][0]), Some([(0, 0), (0, 1), (0, 2)]));
        }
        if b[1][0] != Player::Empty && b[1][0] == b[1][1] && b[1][1] == b[1][2] {
            proof {
                assert(line_complete(*board, 1));
                assert(line_won_by(*board, 1, line_mark(*board, 1, 0)));
            }
            return (Some(b[1][0]), Some([(1, 0), (1, 1), (1, 2)]));
        }
        if b[2][0] != Player::Empty && b[2][0] == b[2][1] && b[2][1] == b[2][2] {
            proof {
                assert(line_complete(*board, 2));
                assert(line_won_by(*board, 2, line_mark(*board, 2, 0)));
            }
            return (Some(b[2][0]), Some([(2, 0), (2, 1), (2, 2)]));
        }
        if b[0][0] != Player::Empty && b[0][0] == b[1][0] && b[1][0] == b[2][0] {
            proof {
                assert(line_complete(*board, 3));
                assert(line_won_by(*board, 3, line_mark(*board, 3, 0)));
            }
            return (Some(b[0][0]), Some([(0, 0), (1, 0), (2, 0)]));
        }
        if b[0][1] != Player::Empty && b[0][1] == b[1][1] && b[1][1] == b[2][1] {
            proof {
                assert(line_complete(*board, 4));
                assert(line_won_by(*board, 4, line_mark(*board, 4, 0)));
            }
            return (Some(b[0][1]), Some([(0, 1), (1, 1), (2, 1)]));
        }
        if b[0][2] != Player::Empty && b[0][2] == b[1][2] && b[1][2] == b[2][2] {
            proof {
                assert(line_complete(*board, 5));
                assert(line_won_by(*board, 5, line_mark(*board, 5, 0)));
            }
            return (Some(b[0][2]), Some([(0, 2), (1, 2), (2, 2)]));
        }
        if b[0][0] != Player::Empty && b[0][0] == b[1][1] && b[1][1] == b[2][2] {
            proof {
                assert(line_complete(*board, 6));
                assert(line_won_by(*board, 6, line_mark(*board, 6, 0)));
            }
            return (Some(b[0][0]), Some([(0, 0), (1, 1), (2, 2)]));
        }
        if b[0][2] != Player::Empty && b[0][2] == b[1][1] && b[1][1] == b[2][0] {
            proof {
                assert(line_complete(*board, 7));
                assert(line_won_by(*board, 7, line_mark(*board, 7, 0)));
            }
            return (Some(b[0][2]), Some([(0, 2), (1, 1), (2, 0)]));
        }
        proof {
            assert forall|k: int| 0 <= k < 8 implies !line_complete(*board, k) by {}
        }
        (None, None)
    }

    /// True exactly when no cell of the board is empty.
    pub fn is_board_full(&self) -> (r: bool)
        ensures
            r == board_full(self.board),
    {
        let mut rr: usize = 0;
        while rr < 3
            invariant
                rr <= 3,
                forall|i: int, j: int|
                    0 <= i < rr && 0 <= j < 3 ==> #[trigger] cell(self.board, i, j)
                        != Player::Empty,
            decreases 3 - rr,
        {
            let mut cc: usize = 0;
            while cc < 3
                invariant
                    rr < 3,
                    cc <= 3,
                    forall|i: int, j: int|
                        0 <= i < rr && 0 <= j < 3 ==> #[trigger] cell(self.board, i, j)
                            != Player::Empty,
                    forall|j: int|
                        0 <= j < cc ==> #[trigger] cell(self.board, rr as int, j) != Player::Empty,
                decreases 3 - cc,
            {
                if self.board[rr][cc] == Player::Empty {
                    proof {
                        assert(cell(self.board, rr as int, cc as int) == Player::Empty);
                    }
                    return false;
                }
                cc = cc + 1;
            }
            rr = rr + 1;
        }
        true
    }

    /// All empty cells of the current board, in row-major order.
    pub fn get_available_moves(&self) -> (r: Vec<Move>)
        ensures
            r@.len() + occupied_count(self.board) == 9,
            forall|t: int| 0 <= t < r@.len() ==> legal_move(self.board, #[trigger] r@[t]),
            forall|i: int, j: int|
                in_bounds(i, j) && #[trigger] cell(self.board, i, j) == Player::Empty
                    ==> r@.contains((i as usize, j as usize)),
            forall|t1: int, t2: int|
                0 <= t1 < t2 < r@.len() ==> row_major(#[trigger] r@[t1]) < row_major(
                    #[trigger] r@[t2],
                ),
            r@.len() == 0 <==> board_full(self.board),
    {
        legal_moves(&self.board)
    }

    /// The strategy bound to the seat that is to move, if any.
    pub fn get_current_agent(&self) -> (r: Option<&SeatAgent>)
        ensures
            match r {
                Some(a) => seat_agent(*self, self.current_player) == Some(*a),
                None => seat_agent(*self, self.current_player) is None,
            },
    {
        match self.current_player {
            Player::X => self.agent_x.as_ref(),
            Player::O => self.agent_o.as_ref(),
            Player::Empty => None,
        }
    }
}

} // verus!
