//! The match orchestrator: owns the single live game, binds strategies to
//! seats by registered name, drives the auto-play loop, and hands out
//! read-only snapshots.
//!
//! A boundary layer serializes access to one [`GameManager`] (a mutex
//! suffices) and maps its results to a transport; the orchestrator itself is
//! transport-free.

use vstd::prelude::*;
use crate::agents::{Agent, RandomAgent, SeatAgent};
use crate::game_logic::{
    bindings_kept, board_full, board_updated, fresh_game, is_human_turn, lemma_occupied_prefix_bounds,
    move_error, occupied_count, opponent_of, seat_agent, str_eq, GameError, Player, TicTacToe,
};
use crate::schemas::{BoardState, StartGameRequest};

verus! {

/// The orchestrator: the single live game (if any) and the registry of
/// strategy display names, fixed at construction.
pub struct GameManager {
    pub game: Option<TicTacToe>,
    pub agent_display_names: Vec<String>,
}

/// The strategy registry: what each registered display name yields for a
/// seat. The human entry yields no agent; an unregistered name is an error.
pub open spec fn agent_for(name: Seq<char>, player: Player) -> Result<
    Option<SeatAgent>,
    GameError,
> {
    if name == "Human"@ {
        Ok(None)
    } else if name == "Random"@ {
        Ok(Some(SeatAgent::Random(RandomAgent { player })))
    } else {
        Err(GameError::UnknownStrategy)
    }
}

/// The auto-play loop has nothing left to do: the game ended, the human
/// seat is to move, or the seat to move has no agent that proposes moves.
pub open spec fn auto_play_done(g: TicTacToe) -> bool {
    ||| g.game_over
    ||| is_human_turn(g)
    ||| seat_agent(g, g.current_player) is None
    ||| seat_agent(g, g.current_player) matches Some(SeatAgent::Human(_))
}

/// The state where the auto-play loop performs exactly one move: the game
/// is active, a random strategy's seat is to move, the board has room, and
/// the human owns the very next turn.
pub open spec fn single_auto_step(g0: TicTacToe) -> bool {
    &&& !g0.game_over
    &&& !is_human_turn(g0)
    &&& (g0.current_player == Player::X || g0.current_player == Player::O)
    &&& g0.human_player == Some(opponent_of(g0.current_player))
    &&& seat_agent(g0, g0.current_player) matches Some(SeatAgent::Random(_))
    &&& !board_full(g0.board)
}

/// Exactly one mark — the seat to move in `g0` — was added to the board,
/// after which the game either ended or the turn passed to the opponent.
pub open spec fn one_move_made(g0: TicTacToe, g1: TicTacToe) -> bool {
    &&& exists|rr: int, cc: int|
        #[trigger] board_updated(g0.board, g1.board, rr, cc, g0.current_player) && 0 <= rr < 3
            && 0 <= cc < 3 && crate::game_logic::cell(g0.board, rr, cc) == Player::Empty
    &&& occupied_count(g1.board) == occupied_count(g0.board) + 1
    &&& (g1.game_over || g1.current_player == opponent_of(g0.current_player))
}

/// What holds between the game before the auto-play loop and the game
/// after it, whatever moves the strategies happened to choose.
pub open spec fn auto_play_frame(g0: TicTacToe, g: TicTacToe) -> bool {
    &&& bindings_kept(g0, g)
    &&& occupied_count(g.board) >= occupied_count(g0.board)
    &&& (g0.game_over ==> g == g0)
    &&& (is_human_turn(g0) ==> g == g0)
    &&& ((!g0.game_over && !is_human_turn(g0) && seat_agent(g0, g0.current_player) is None) ==> g
        == g0)
    &&& (single_auto_step(g0) ==> (g == g0 || one_move_made(g0, g)))
}

/// The auto-play loop's full guarantee: the frame above, and that it only
/// stops when nothing is left for it to do.
pub open spec fn auto_play_post(g0: TicTacToe, g1: TicTacToe) -> bool {
    auto_play_frame(g0, g1) && auto_play_done(g1)
}

/// The read-only copy of the live game's observable state, or the error
/// when no game is live.
pub open spec fn snapshot_of(game: Option<TicTacToe>) -> Result<BoardState, GameError> {
    match game {
        Some(g) => Ok(
            BoardState {
                board: g.board,
                current_player: g.current_player,
                winner: g.winner,
                winner_line: g.winner_line,
                game_over: g.game_over,
            },
        ),
        None => Err(GameError::NoGameStarted),
    }
}

/// A snapshot is a pure function of the manager's state: two snapshots
/// taken without an intervening mutation are identical.
pub proof fn lemma_snapshot_idempotent(
    game: Option<TicTacToe>,
    r1: Result<BoardState, GameError>,
    r2: Result<BoardState, GameError>,
)
    requires
        r1 == snapshot_of(game),
        r2 == snapshot_of(game),
    ensures
        r1 == r2,
{
}

/// The human seat owns the turn in `g`.
fn human_turn(g: &TicTacToe) -> (r: bool)
    ensures
        r == is_human_turn(*g),
{
    match g.human_player {
        Some(p) => p == g.current_player,
        None => false,
    }
}

impl GameManager {
    /// A fresh orchestrator: no live game, and the fixed registry with the
    /// human placeholder first and the built-in strategies after it.
    pub fn new() -> (m: GameManager)
        ensures
            m.game is None,
            m.agent_display_names@.len() == 2,
            m.agent_display_names@[0]@ == "Human"@,
            m.agent_display_names@[1]@ == "Random"@,
    {
        let mut names: Vec<String> = Vec::new();
        names.push("Human".to_owned());
        names.push("Random".to_owned());
        GameManager { game: None, agent_display_names: names }
    }

    /// The registered strategy display names, in registration order.
    pub fn get_available_agents(&self) -> (r: Vec<String>)
        ensures
            r@.len() == self.agent_display_names@.len(),
            forall|i: int| 0 <= i < r@.len() ==> #[trigger] r@[i]@ == self.agent_display_names@[i]@,
    {
        let mut out: Vec<String> = Vec::new();
        let mut i: usize = 0;
        while i < self.agent_display_names.len()
            invariant
                i <= self.agent_display_names@.len(),
                out@.len() == i,
                forall|t: int| 0 <= t < i ==> #[trigger] out@[t]@ == self.agent_display_names@[t]@,
            decreases self.agent_display_names@.len() - i,
        {
            let s = self.agent_display_names[i].clone();
            out.push(s);
            i = i + 1;
        }
        out
    }

    /// Instantiates the strategy registered under `agent_type` for the
    /// given seat; the human entry yields no strategy.
    pub fn create_agent_instance(&self, agent_type: &str, player: Player) -> (r: Result<
        Option<SeatAgent>,
        GameError,
    >)
        ensures
            r == agent_for(agent_type@, player),
    {
        if str_eq(agent_type, "Human") {
            Ok(None)
        } else if str_eq(agent_type, "Random") {
            Ok(Some(SeatAgent::Random(RandomAgent::new(player))))
        } else {
            Err(GameError::UnknownStrategy)
        }
    }

    /// A fresh game with each seat bound per the named strategies.
    fn create_game_instance(
        &self,
        player_x_type: &str,
        player_o_type: &str,
        human_player_symbol: Option<Player>,
    ) -> (r: Result<TicTacToe, GameError>)
        ensures
            match r {
                Ok(g) => agent_for(player_x_type@, Player::X) matches Ok(ax) && agent_for(
                    player_o_type@,
                    Player::O,
                ) matches Ok(ao) && fresh_game(g, ax, ao, human_player_symbol),
                Err(e) => {
                    &&& e == GameError::UnknownStrategy
                    &&& !(agent_for(player_x_type@, Player::X) is Ok && agent_for(
                        player_o_type@,
                        Player::O,
                    ) is Ok)
                },
            },
    {
        let agent_x = match self.create_agent_instance(player_x_type, Player::X) {
            Ok(a) => a,
            Err(e) => {
                return Err(e);
            },
        };
        let agent_o = match self.create_agent_instance(player_o_type, Player::O) {
            Ok(a) => a,
            Err(e) => {
                return Err(e);
            },
        };
        Ok(TicTacToe::new(agent_x, agent_o, human_player_symbol))
    }

    /// Starts a new game, replacing any live one: binds each seat per the
    /// request, then immediately runs the auto-play loop, so the returned
    /// state may already reflect automatic moves.
    pub fn start_new_game(&mut self, request: StartGameRequest) -> (r: Result<
        TicTacToe,
        GameError,
    >)
        ensures
            final(self).agent_display_names == old(self).agent_display_names,
            match r {
                Ok(g) => {
                    &&& final(self).game == Some(g)
                    &&& agent_for(request.player_x_type@, Player::X) matches Ok(ax) && agent_for(
                        request.player_o_type@,
                        Player::O,
                    ) matches Ok(ao) && exists|g0: TicTacToe|
                        #[trigger] auto_play_post(g0, g) && fresh_game(
                            g0,
                            ax,
                            ao,
                            request.human_player_symbol,
                        )
                },
                Err(e) => {
                    &&& e == GameError::UnknownStrategy
                    &&& *final(self) == *old(self)
                    &&& !(agent_for(request.player_x_type@, Player::X) is Ok && agent_for(
                        request.player_o_type@,
                        Player::O,
                    ) is Ok)
                },
            },
    {
        let game_instance = match self.create_game_instance(
            request.player_x_type.as_str(),
            request.player_o_type.as_str(),
            request.human_player_symbol,
        ) {
            Ok(g) => g,
            Err(e) => {
                return Err(e);
            },
        };
        let ghost g0 = game_instance;
        self.game = Some(game_instance);
        self.make_agent_move_if_needed();
        let g = self.game.unwrap();
        proof {
            assert(auto_play_post(g0, g));
        }
        Ok(g)
    }

    /// Runs the auto-play loop on the live game: while the game is active
    /// and the seat to move is not the human's, ask that seat's strategy
    /// for a move and apply it. A strategy that declines stops the loop; a
    /// strategy move that the rules reject is absorbed (the game state
    /// stays valid) and stops the loop. Without a live game this is a
    /// no-op.
    pub fn make_agent_move_if_needed(&mut self)
        ensures
            final(self).agent_display_names == old(self).agent_display_names,
            match (old(self).game, final(self).game) {
                (Some(g0), Some(g1)) => auto_play_post(g0, g1),
                (None, None) => true,
                _ => false,
            },
    {
        if self.game.is_none() {
            return;
        }
        let mut g = self.game.take().unwrap();
        let ghost g0 = g;
        while !g.game_over && !human_turn(&g)
            invariant_except_break
                auto_play_frame(g0, g),
            ensures
                auto_play_frame(g0, g),
                auto_play_done(g),
            decreases 9 - occupied_count(g.board),
        {
            proof {
                lemma_occupied_prefix_bounds(g.board, 9);
                lemma_occupied_prefix_bounds(g0.board, 9);
            }
            let agent = match g.get_current_agent() {
                Some(a) => *a,
                None => {
                    break;
                },
            };
            proof {
                assert(g.current_player != Player::Empty);
            }
            match agent.get_move(&g.board) {
                Some(m) => {
                    let ghost gpre = g;
                    let res = g.make_move(m.0, m.1);
                    proof {
                        assert(move_error(gpre, m.0 as int, m.1 as int) is None);
                    }
                    if res.is_err() {
                        // a conforming strategy only returns legal moves
                        break;
                    }
                    proof {
                        lemma_occupied_prefix_bounds(g.board, 9);
                        assert(board_updated(
                            gpre.board,
                            g.board,
                            m.0 as int,
                            m.1 as int,
                            gpre.current_player,
                        ));
                        if single_auto_step(g0) && gpre == g0 {
                            assert(one_move_made(g0, g));
                        }
                    }
                },
                None => {
                    g.check_game_state();
                    break;
                },
            }
        }
        self.game = Some(g);
    }

    /// Applies the human's move to the live game, propagating the game's
    /// own rejections verbatim. The auto-play loop is not run here; the
    /// boundary layer triggers it as a separate step.
    pub fn make_player_move(&mut self, row: usize, col: usize) -> (r: Result<TicTacToe, GameError>)
        ensures
            final(self).agent_display_names == old(self).agent_display_names,
            match old(self).game {
                None => r == Err::<TicTacToe, GameError>(GameError::NoGameStarted) && *final(self)
                    == *old(self),
                Some(g0) => match move_error(g0, row as int, col as int) {
                    Some(e) => r == Err::<TicTacToe, GameError>(e) && *final(self) == *old(self),
                    None => final(self).game matches Some(g1) && crate::game_logic::move_applied(
                        g0,
                        g1,
                        row as int,
                        col as int,
                    ) && r == Ok::<TicTacToe, GameError>(g1),
                },
            },
    {
        if self.game.is_none() {
            return Err(GameError::NoGameStarted);
        }
        let mut g = self.game.take().unwrap();
        let res = g.make_move(row, col);
        self.game = Some(g);
        match res {
            Ok(_) => Ok(g),
            Err(e) => Err(e),
        }
    }

    /// A read-only snapshot of the live game, or `NoGameStarted`.
    pub fn get_current_game_state(&self) -> (r: Result<BoardState, GameError>)
        ensures
            r == snapshot_of(self.game),
    {
        match &self.game {
            Some(g) => Ok(
                BoardState {
                    board: g.board,
                    current_player: g.current_player,
                    winner: g.winner,
                    winner_line: g.winner_line,
                    game_over: g.game_over,
                },
            ),
            None => Err(GameError::NoGameStarted),
        }
    }
}

impl Default for GameManager {
    /// Same as [`GameManager::new`].
    fn default() -> (m: GameManager)
        ensures
            m.game is None,
            m.agent_display_names@.len() == 2,
            m.agent_display_names@[0]@ == "Human"@,
            m.agent_display_names@[1]@ == "Random"@,
    {
        GameManager::new()
    }
}

} // verus!
