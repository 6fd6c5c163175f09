use tic_tac_toe_server_rust::game_logic::Player;
use tic_tac_toe_server_rust::schemas::{board_from_rows, board_to_rows, MoveRequest};

#[test]
fn test_board_from_rows_well_shaped() {
    let rows = vec![
        vec![Player::X, Player::Empty, Player::O],
        vec![Player::Empty, Player::X, Player::Empty],
        vec![Player::O, Player::Empty, Player::X],
    ];
    let board = board_from_rows(&rows).unwrap();
    assert_eq!(board[0][0], Player::X);
    assert_eq!(board[0][2], Player::O);
    assert_eq!(board[1][1], Player::X);
    assert_eq!(board[2][0], Player::O);
    assert_eq!(board[2][1], Player::Empty);
}

#[test]
fn test_board_from_rows_wrong_row_count() {
    let rows = vec![
        vec![Player::X, Player::Empty, Player::O],
        vec![Player::Empty, Player::X, Player::Empty],
    ];
    let err = board_from_rows(&rows).unwrap_err();
    assert_eq!(err, "Board must have 3 rows");
}

#[test]
fn test_board_from_rows_wrong_column_count() {
    let rows = vec![
        vec![Player::X, Player::Empty, Player::O],
        vec![Player::Empty, Player::X],
        vec![Player::O, Player::Empty, Player::X],
    ];
    let err = board_from_rows(&rows).unwrap_err();
    assert_eq!(err, "Each row of the board must have 3 elements");
}

#[test]
fn test_board_rows_round_trip() {
    let board = [
        [Player::X, Player::O, Player::Empty],
        [Player::Empty, Player::X, Player::O],
        [Player::O, Player::Empty, Player::X],
    ];
    let rows = board_to_rows(&board);
    assert_eq!(rows.len(), 3);
    let back = board_from_rows(&rows).unwrap();
    assert_eq!(back, board);
}

#[test]
fn test_player_symbol_round_trip() {
    for p in [Player::X, Player::O, Player::Empty] {
        let text = p.symbol();
        assert_eq!(Player::from_symbol(text).unwrap(), p);
    }
}

#[test]
fn test_player_from_symbol_error_message() {
    let err = Player::from_symbol("Z").unwrap_err();
    assert_eq!(err, "Invalid player string: Z");
}

#[test]
fn test_move_request_fields() {
    let req = MoveRequest { row: 0, col: 1 };
    assert_eq!(req.row, 0);
    assert_eq!(req.col, 1);
}
