//! Move-selection strategies that can be bound to a seat.
//!
//! A seat is either driven by a strategy that picks a move itself, or by a
//! human whose moves arrive from outside; the human placeholder simply never
//! proposes a move. The built-in automatic strategy picks uniformly at
//! random among the legal moves.

use vstd::prelude::*;
use rand::seq::SliceRandom;
use crate::game_logic::{board_full, cell, legal_moves, Board, Move, Player};

verus! {

/// A pluggable move-selection capability bound to one seat.
pub trait Agent: Sized {
    /// The seat this agent plays for.
    spec fn seat(&self) -> Player;

    /// What this agent's `get_move` promises of its result.
    spec fn move_ok(&self, board: Board, r: Option<Move>) -> bool;

    fn get_player(&self) -> (r: Player)
        ensures
            r == self.seat(),
    ;

    fn get_move(&self, board: &Board) -> (r: Option<Move>)
        ensures
            self.move_ok(*board, r),
    ;
}

/// The placeholder bound to a human-controlled seat: it never proposes a
/// move, since the human's moves arrive through the move entry point.
#[derive(Debug, Clone, Copy, PartialEq, Eq, Structural)]
pub struct HumanAgent {
    pub player: Player,
}

impl HumanAgent {
    pub fn new(player: Player) -> (a: HumanAgent)
        ensures
            a.player == player,
    {
        HumanAgent { player }
    }
}

impl Agent for HumanAgent {
    open spec fn seat(&self) -> Player {
        self.player
    }

    open spec fn move_ok(&self, board: Board, r: Option<Move>) -> bool {
        r is None
    }

    fn get_player(&self) -> (r: Player) {
        self.player
    }

    fn get_move(&self, board: &Board) -> (r: Option<Move>) {
        None
    }
}

/// The built-in automatic strategy: a uniformly random choice among the
/// legal moves of the given board.
#[derive(Debug, Clone, Copy, PartialEq, Eq, Structural)]
pub struct RandomAgent {
    pub player: Player,
}

impl RandomAgent {
    pub fn new(player: Player) -> (a: RandomAgent)
        ensures
            a.player == player,
    {
        RandomAgent { player }
    }
}

/// Relies on rand's `SliceRandom::choose` for slices, driven by
/// `rand::thread_rng`: it returns a uniformly chosen element of the slice,
/// and `None` exactly when the slice is empty.
#[verifier::external_body]
fn choose_uniform(moves: &Vec<Move>) -> (r: Option<Move>)
    ensures
        match r {
            Some(m) => moves@.contains(m),
            None => moves@.len() == 0,
        },
{
    let mut rng = rand::thread_rng();
    moves.as_slice().choose(&mut rng).copied()
}

impl Agent for RandomAgent {
    open spec fn seat(&self) -> Player {
        self.player
    }

    /// A random agent proposes a legal move exactly when one exists.
    open spec fn move_ok(&self, board: Board, r: Option<Move>) -> bool {
        match r {
            Some(m) => m.0 < 3 && m.1 < 3 && cell(board, m.0 as int, m.1 as int) == Player::Empty,
            None => board_full(board),
        }
    }

    fn get_player(&self) -> (r: Player) {
        self.player
    }

    fn get_move(&self, board: &Board) -> (r: Option<Move>) {
        let moves = legal_moves(board);
        if moves.is_empty() {
            None
        } else {
            let picked = choose_uniform(&moves);
            proof {
                if let Some(m) = picked {
                    let t = choose|t: int| 0 <= t < moves@.len() && moves@[t] == m;
                    assert(moves@[t] == m);
                }
            }
            picked
        }
    }
}

/// A seat's bound strategy: one of the closed set of built-in agents.
#[derive(Debug, Clone, Copy, PartialEq, Eq, Structural)]
pub enum SeatAgent {
    Human(HumanAgent),
    Random(RandomAgent),
}

impl Agent for SeatAgent {
    open spec fn seat(&self) -> Player {
        match self {
            SeatAgent::Human(a) => a.player,
            SeatAgent::Random(a) => a.player,
        }
    }

    open spec fn move_ok(&self, board: Board, r: Option<Move>) -> bool {
        match self {
            SeatAgent::Human(a) => a.move_ok(board, r),
            SeatAgent::Random(a) => a.move_ok(board, r),
        }
    }

    fn get_player(&self) -> (r: Player) {
        match self {
            SeatAgent::Human(a) => a.get_player(),
            SeatAgent::Random(a) => a.get_player(),
        }
    }

    fn get_move(&self, board: &Board) -> (r: Option<Move>) {
        match self {
            SeatAgent::Human(a) => a.get_move(board),
            SeatAgent::Random(a) => a.get_move(board),
        }
    }
}

} // verus!
