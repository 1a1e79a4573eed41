use tictactoe_p2p::tictactoe::{GameError, Player, Tile, TicTacToe};

fn flat(state: &[[char; 3]; 3]) -> Vec<char> {
    state.iter().flat_map(|row| row.iter().copied()).collect()
}

#[test]
fn new_board_is_empty() {
    let game = TicTacToe::new();
    let state = game.get_state();
    assert!(flat(&state).iter().all(|&c| c == ' '));
    assert!(!game.am_i_winner());
    assert!(!game.is_opponent_winner());
}

#[test]
fn tiles_render_as_expected() {
    assert_eq!(Tile::Cross.to_char(), 'X');
    assert_eq!(Tile::Circle.to_char(), 'O');
    assert_eq!(Tile::Empty.to_char(), ' ');
}

#[test]
fn players_place_their_tiles() {
    assert_eq!(Player::You.tile(), Tile::Circle);
    assert_eq!(Player::Opponent.tile(), Tile::Cross);
    assert_eq!(Player::Noone.tile(), Tile::Empty);
}

#[test]
fn my_turn_marks_the_cell() {
    let mut game = TicTacToe::new();
    assert!(game.make_my_turn(1, 2).is_ok());
    assert_eq!(game.get_state()[1][2], 'O');
}

#[test]
fn opponent_turn_marks_the_cell() {
    let mut game = TicTacToe::new();
    assert!(game.make_opponent_turn(2, 0).is_ok());
    assert_eq!(game.get_state()[2][0], 'X');
}

#[test]
fn out_of_range_fails_and_mutates_nothing() {
    let mut game = TicTacToe::new();
    game.make_my_turn(0, 0).unwrap();
    let before = game.get_state();
    assert!(matches!(game.make_my_turn(3, 0), Err(GameError::InvalidValue)));
    assert!(matches!(game.make_my_turn(0, 3), Err(GameError::InvalidValue)));
    assert!(matches!(game.make_my_turn(17, 1), Err(GameError::InvalidValue)));
    assert!(matches!(
        game.make_my_turn(usize::MAX, usize::MAX),
        Err(GameError::InvalidValue)
    ));
    assert_eq!(flat(&game.get_state()), flat(&before));
    assert!(!game.am_i_winner());
}

#[test]
fn occupied_cell_fails_and_mutates_nothing() {
    let mut game = TicTacToe::new();
    game.make_my_turn(1, 1).unwrap();
    let before = game.get_state();
    assert!(matches!(game.make_opponent_turn(1, 1), Err(GameError::OccupiedField)));
    assert!(matches!(game.make_my_turn(1, 1), Err(GameError::OccupiedField)));
    assert_eq!(flat(&game.get_state()), flat(&before));
}

#[test]
fn row_win_is_detected() {
    let mut game = TicTacToe::new();
    game.make_my_turn(0, 0).unwrap();
    game.make_opponent_turn(1, 0).unwrap();
    game.make_my_turn(0, 1).unwrap();
    game.make_opponent_turn(1, 1).unwrap();
    assert!(!game.am_i_winner());
    game.make_my_turn(0, 2).unwrap();
    assert!(game.am_i_winner());
    assert!(!game.is_opponent_winner());
}

#[test]
fn column_win_is_detected() {
    let mut game = TicTacToe::new();
    game.make_opponent_turn(0, 2).unwrap();
    game.make_my_turn(0, 0).unwrap();
    game.make_opponent_turn(1, 2).unwrap();
    game.make_my_turn(1, 0).unwrap();
    game.make_opponent_turn(2, 2).unwrap();
    assert!(game.is_opponent_winner());
    assert!(!game.am_i_winner());
}

#[test]
fn main_diagonal_win_is_detected() {
    let mut game = TicTacToe::new();
    game.make_my_turn(0, 0).unwrap();
    game.make_my_turn(1, 1).unwrap();
    game.make_my_turn(2, 2).unwrap();
    assert!(game.am_i_winner());
}

#[test]
fn anti_diagonal_win_through_center_is_detected() {
    let mut game = TicTacToe::new();
    game.make_my_turn(0, 2).unwrap();
    game.make_my_turn(2, 0).unwrap();
    // the last mark lands on the center, which lies on both diagonals
    game.make_my_turn(1, 1).unwrap();
    assert!(game.am_i_winner());
}

#[test]
fn winner_is_recorded_permanently_until_reset() {
    let mut game = TicTacToe::new();
    game.make_my_turn(0, 0).unwrap();
    game.make_my_turn(0, 1).unwrap();
    game.make_my_turn(0, 2).unwrap();
    assert!(game.am_i_winner());
    game.make_opponent_turn(1, 0).unwrap();
    assert!(game.am_i_winner());
    game.reset();
    assert!(!game.am_i_winner());
    assert!(flat(&game.get_state()).iter().all(|&c| c == ' '));
}
