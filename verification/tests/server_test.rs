use tic_tac_toe_server_rust::game_logic::{GameError, Player, TicTacToe};
use tic_tac_toe_server_rust::schemas::{AvailableAgentsResponse, ErrorResponse, StartGameRequest};
use tic_tac_toe_server_rust::server::GameManager;

fn start_request(x: &str, o: &str, human: Option<Player>) -> StartGameRequest {
    StartGameRequest {
        human_player_symbol: human,
        player_x_type: x.to_string(),
        player_o_type: o.to_string(),
    }
}

#[test]
fn test_get_available_agents() {
    let manager = GameManager::new();
    let response = AvailableAgentsResponse { agents: manager.get_available_agents() };
    assert_eq!(response.agents, vec!["Human".to_string(), "Random".to_string()]);
}

#[test]
fn test_error_response_detail() {
    let response = ErrorResponse { detail: GameError::NoGameStarted.message().to_string() };
    assert_eq!(response.detail, "Game not started");
}

#[test]
fn test_default_manager_has_no_game() {
    let manager = GameManager::default();
    assert!(manager.get_current_game_state().is_err());
    assert_eq!(manager.get_available_agents().len(), 2);
}

#[test]
fn test_state_before_any_game() {
    let manager = GameManager::new();
    let err = manager.get_current_game_state().unwrap_err();
    assert_eq!(err, GameError::NoGameStarted);
    assert_eq!(err.message(), "Game not started");
}

#[test]
fn test_move_before_any_game() {
    let mut manager = GameManager::new();
    let err = manager.make_player_move(0, 0).unwrap_err();
    assert_eq!(err, GameError::NoGameStarted);
}

#[test]
fn test_start_game_unknown_agent() {
    let mut manager = GameManager::new();
    let err = manager
        .start_new_game(start_request("UnknownAgent", "Human", None))
        .unwrap_err();
    assert_eq!(err, GameError::UnknownStrategy);
    assert_eq!(err.message(), "Unknown agent type");
    // the failed start leaves no live game behind
    assert!(manager.get_current_game_state().is_err());
}

// Scenario: both seats human, the human controls X; the first move by X
// lands, the turn passes to O, and the game is not over.
#[test]
fn test_human_game_first_move() {
    let mut manager = GameManager::new();
    let game = manager
        .start_new_game(start_request("Human", "Human", Some(Player::X)))
        .unwrap();
    // X is first to move, so no automatic move was made
    assert_eq!(game.board, [[Player::Empty; 3]; 3]);
    assert_eq!(game.current_player, Player::X);
    assert!(!game.game_over);

    let game = manager.make_player_move(0, 0).unwrap();
    assert_eq!(game.board[0][0], Player::X);
    assert_eq!(game.current_player, Player::O);
    assert!(!game.game_over);
}

// Scenario: re-taking an occupied cell fails with CellOccupied and leaves
// the state untouched (still O's turn).
#[test]
fn test_occupied_cell_re_move() {
    let mut manager = GameManager::new();
    manager
        .start_new_game(start_request("Human", "Human", Some(Player::X)))
        .unwrap();
    manager.make_player_move(0, 0).unwrap();
    let before = manager.get_current_game_state().unwrap();

    let err = manager.make_player_move(0, 0).unwrap_err();
    assert_eq!(err, GameError::CellOccupied);

    let after = manager.get_current_game_state().unwrap();
    assert_eq!(before, after);
    assert_eq!(after.current_player, Player::O);
}

// Scenario: an out-of-bounds move on a started game fails with OutOfBounds
// and leaves the state untouched.
#[test]
fn test_out_of_bounds_move() {
    let mut manager = GameManager::new();
    manager
        .start_new_game(start_request("Human", "Human", Some(Player::X)))
        .unwrap();
    let before = manager.get_current_game_state().unwrap();

    let err = manager.make_player_move(3, 0).unwrap_err();
    assert_eq!(err, GameError::OutOfBounds);

    let after = manager.get_current_game_state().unwrap();
    assert_eq!(before, after);
}

// Scenario: X completes the top row; the winner, the exact line and the
// ended flag are recorded, and the turn does not pass.
#[test]
fn test_winning_move_records_line() {
    let mut game = TicTacToe::new(None, None, None);
    game.board = [
        [Player::X, Player::X, Player::Empty],
        [Player::O, Player::O, Player::Empty],
        [Player::Empty, Player::Empty, Player::Empty],
    ];
    game.current_player = Player::X;
    game.make_move(0, 2).unwrap();
    assert!(game.game_over);
    assert_eq!(game.winner, Some(Player::X));
    assert_eq!(game.winner_line, Some([(0, 0), (0, 1), (0, 2)]));
    assert_eq!(game.current_player, Player::X); // no further turn change
}

// Scenario: a full board with no three-in-a-row is a draw: the winner scan
// finds nothing, and the terminal check records the draw marker.
#[test]
fn test_full_board_draw() {
    let board = [
        [Player::X, Player::O, Player::X],
        [Player::X, Player::X, Player::O],
        [Player::O, Player::X, Player::O],
    ];
    let (winner, line) = TicTacToe::check_winner_logic(&board);
    assert_eq!(winner, None);
    assert_eq!(line, None);

    let mut game = TicTacToe::new(None, None, None);
    game.board = board;
    game.check_game_state();
    assert!(game.game_over);
    assert_eq!(game.winner, Some(Player::Empty));
    assert_eq!(game.winner_line, None);
}

fn count_marks(game_board: &[[Player; 3]; 3]) -> usize {
    let mut n = 0;
    for row in game_board.iter() {
        for cell in row.iter() {
            if *cell != Player::Empty {
                n += 1;
            }
        }
    }
    n
}

// Scenario: seat O is a random strategy and the human controls X. The
// start makes zero automatic moves (X moves first); after the human's move
// plus the auto-play trigger, exactly one additional mark (O's) appears.
#[test]
fn test_random_opponent_single_reply() {
    let mut manager = GameManager::new();
    let game = manager
        .start_new_game(start_request("Human", "Random", Some(Player::X)))
        .unwrap();
    assert_eq!(game.board, [[Player::Empty; 3]; 3]);
    assert_eq!(game.current_player, Player::X);

    manager.make_player_move(1, 1).unwrap();
    let after_human = manager.get_current_game_state().unwrap();
    assert_eq!(count_marks(&after_human.board), 1);
    assert_eq!(after_human.current_player, Player::O);

    manager.make_agent_move_if_needed();
    let after_auto = manager.get_current_game_state().unwrap();
    assert!(!after_auto.game_over);
    assert_eq!(count_marks(&after_auto.board), 2);
    assert_eq!(after_auto.board[1][1], Player::X); // the human's mark stays
    assert_eq!(after_auto.current_player, Player::X); // the human is next
}

// Two random seats play the whole match out during the start call.
#[test]
fn test_two_random_seats_play_to_the_end() {
    let mut manager = GameManager::new();
    let game = manager
        .start_new_game(start_request("Random", "Random", None))
        .unwrap();
    assert!(game.game_over);
    assert!(game.winner.is_some());
    let marks = count_marks(&game.board);
    assert!((5..=9).contains(&marks));
}

// A seat bound to a random strategy moving first makes exactly one move
// before the human's turn comes up.
#[test]
fn test_random_first_seat_opens() {
    let mut manager = GameManager::new();
    let game = manager
        .start_new_game(start_request("Random", "Human", Some(Player::O)))
        .unwrap();
    assert_eq!(count_marks(&game.board), 1);
    assert_eq!(game.current_player, Player::O);
    assert!(!game.game_over);
}

// Starting a new game replaces the previous one wholesale.
#[test]
fn test_start_replaces_live_game() {
    let mut manager = GameManager::new();
    manager
        .start_new_game(start_request("Human", "Human", Some(Player::X)))
        .unwrap();
    manager.make_player_move(2, 2).unwrap();

    let game = manager
        .start_new_game(start_request("Human", "Human", Some(Player::X)))
        .unwrap();
    assert_eq!(game.board, [[Player::Empty; 3]; 3]);
    assert_eq!(game.current_player, Player::X);
}

// Taking a snapshot twice without a mutation in between yields identical
// results.
#[test]
fn test_snapshot_idempotent() {
    let mut manager = GameManager::new();
    manager
        .start_new_game(start_request("Human", "Human", Some(Player::X)))
        .unwrap();
    manager.make_player_move(0, 1).unwrap();
    let s1 = manager.get_current_game_state().unwrap();
    let s2 = manager.get_current_game_state().unwrap();
    assert_eq!(s1, s2);
}

// The auto-play trigger is a no-op without a live game, and on a game
// whose human seat is to move.
#[test]
fn test_auto_play_no_op_cases() {
    let mut manager = GameManager::new();
    manager.make_agent_move_if_needed();
    assert!(manager.get_current_game_state().is_err());

    manager
        .start_new_game(start_request("Human", "Random", Some(Player::X)))
        .unwrap();
    let before = manager.get_current_game_state().unwrap();
    manager.make_agent_move_if_needed();
    let after = manager.get_current_game_state().unwrap();
    assert_eq!(before, after);
}

#[test]
fn test_error_messages() {
    assert_eq!(GameError::AlreadyOver.message(), "Game is already over.");
    assert_eq!(GameError::OutOfBounds.message(), "Move is out of board bounds.");
    assert_eq!(GameError::CellOccupied.message(), "Cell is already occupied.");
    assert_eq!(GameError::UnknownStrategy.message(), "Unknown agent type");
    assert_eq!(GameError::NoGameStarted.message(), "Game not started");
}

// For any board: the legal-move count plus the occupied-cell count is 9.
#[test]
fn test_legal_moves_plus_occupied_is_nine() {
    let mut game = TicTacToe::new(None, None, None);
    assert_eq!(game.get_available_moves().len() + count_marks(&game.board), 9);
    game.make_move(0, 0).unwrap();
    game.make_move(1, 1).unwrap();
    game.make_move(2, 2).unwrap();
    assert_eq!(game.get_available_moves().len() + count_marks(&game.board), 9);
    game.board = [
        [Player::X, Player::O, Player::X],
        [Player::O, Player::X, Player::O],
        [Player::O, Player::X, Player::O],
    ];
    assert_eq!(game.get_available_moves().len() + count_marks(&game.board), 9);
}
