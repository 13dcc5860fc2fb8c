use tictactoe_sessions::{CellState, GameError, GameState};

fn two_seated() -> (GameState, u128, u128) {
    let mut g = GameState::new_with_id("t".to_string(), 7);
    let x = g.add_player_with_id("Alice".to_string(), 100).unwrap();
    let o = g.add_player_with_id("Bob".to_string(), 200).unwrap();
    (g, x.id, o.id)
}

#[test]
fn new_game_is_empty_with_x_to_move() {
    let g = GameState::new_with_id("room".to_string(), 9);
    assert_eq!(g.id, 9);
    assert_eq!(g.name, "room");
    assert!(g.board.iter().all(|row| row.iter().all(|c| *c == CellState::Empty)));
    assert_eq!(g.current_player, CellState::X);
    assert!(g.players.is_empty());
    assert_eq!(g.winner, None);
    assert!(!g.is_full);
    assert!(!g.game_over);
}

#[test]
fn seats_are_x_then_o_and_third_is_refused() {
    let mut g = GameState::new("room".to_string());
    let a = g.add_player("Alice".to_string()).unwrap();
    assert_eq!(a.symbol, CellState::X);
    assert!(!g.is_full);
    let b = g.add_player("Bob".to_string()).unwrap();
    assert_eq!(b.symbol, CellState::O);
    assert_eq!(b.name, "Bob");
    assert!(g.is_full);
    assert_ne!(a.id, b.id);
    assert_eq!(g.add_player("Carol".to_string()).unwrap_err(), GameError::GameFull);
    assert_eq!(g.players.len(), 2);
}

#[test]
fn duplicate_player_id_is_refused() {
    let mut g = GameState::new_with_id("room".to_string(), 1);
    g.add_player_with_id("Alice".to_string(), 5).unwrap();
    assert_eq!(g.add_player_with_id("Bob".to_string(), 5).unwrap_err(), GameError::IdInUse);
    assert_eq!(g.players.len(), 1);
}

#[test]
fn move_places_symbol_and_passes_turn() {
    let (mut g, x, o) = two_seated();
    g.make_move(1, 2, x).unwrap();
    assert_eq!(g.board[1][2], CellState::X);
    assert_eq!(g.current_player, CellState::O);
    g.make_move(0, 0, o).unwrap();
    assert_eq!(g.board[0][0], CellState::O);
    assert_eq!(g.current_player, CellState::X);
}

#[test]
fn failed_move_keeps_turn() {
    let (mut g, x, o) = two_seated();
    assert_eq!(g.make_move(0, 0, o), Err(GameError::NotYourTurn));
    assert_eq!(g.current_player, CellState::X);
    g.make_move(0, 0, x).unwrap();
    assert_eq!(g.make_move(0, 1, x), Err(GameError::NotYourTurn));
    assert_eq!(g.current_player, CellState::O);
}

#[test]
fn occupied_cell_is_refused_and_state_kept() {
    let (mut g, x, o) = two_seated();
    g.make_move(1, 1, x).unwrap();
    let board = g.board;
    assert_eq!(g.make_move(1, 1, o), Err(GameError::CellOccupied));
    assert_eq!(g.board, board);
    assert_eq!(g.current_player, CellState::O);
    assert!(!g.game_over);
}

#[test]
fn out_of_range_is_refused() {
    let (mut g, x, _) = two_seated();
    assert_eq!(g.make_move(3, 0, x), Err(GameError::OutOfRange));
    assert_eq!(g.make_move(0, 3, x), Err(GameError::OutOfRange));
    assert_eq!(g.make_move(usize::MAX, usize::MAX, x), Err(GameError::OutOfRange));
    assert_eq!(g.current_player, CellState::X);
}

#[test]
fn unknown_player_is_refused() {
    let (mut g, _, _) = two_seated();
    assert_eq!(g.make_move(0, 0, 999), Err(GameError::PlayerNotFound));
}

#[test]
fn o_moving_first_is_refused() {
    let mut g = GameState::new_with_id("t".to_string(), 7);
    g.add_player_with_id("Alice".to_string(), 100).unwrap();
    assert_eq!(g.make_move(0, 0, 200), Err(GameError::PlayerNotFound));
    g.add_player_with_id("Bob".to_string(), 200).unwrap();
    assert_eq!(g.make_move(0, 0, 200), Err(GameError::NotYourTurn));
}

#[test]
fn column_win_and_moves_after_end_are_refused() {
    let (mut g, x, o) = two_seated();
    g.make_move(0, 1, x).unwrap();
    g.make_move(0, 0, o).unwrap();
    g.make_move(1, 1, x).unwrap();
    g.make_move(1, 0, o).unwrap();
    g.make_move(2, 1, x).unwrap();
    assert!(g.game_over);
    assert_eq!(g.winner, Some(CellState::X));
    assert_eq!(g.current_player, CellState::X);
    assert_eq!(g.make_move(2, 2, o), Err(GameError::GameOver));
}

#[test]
fn anti_diagonal_win_for_o() {
    let (mut g, x, o) = two_seated();
    g.make_move(0, 0, x).unwrap();
    g.make_move(0, 2, o).unwrap();
    g.make_move(0, 1, x).unwrap();
    g.make_move(1, 1, o).unwrap();
    g.make_move(2, 2, x).unwrap();
    g.make_move(2, 0, o).unwrap();
    assert!(g.game_over);
    assert_eq!(g.winner, Some(CellState::O));
}

#[test]
fn full_board_without_line_is_a_draw() {
    let (mut g, x, o) = two_seated();
    // X O X / X O O / O X X
    let moves = [
        (0, 0, x),
        (0, 1, o),
        (0, 2, x),
        (1, 1, o),
        (1, 0, x),
        (1, 2, o),
        (2, 1, x),
        (2, 0, o),
        (2, 2, x),
    ];
    for (r, c, p) in moves {
        g.make_move(r, c, p).unwrap();
    }
    assert!(g.game_over);
    assert_eq!(g.winner, None);
    assert_eq!(g.make_move(0, 0, o), Err(GameError::GameOver));
}

#[test]
fn placed_symbols_are_never_overwritten() {
    let (mut g, x, o) = two_seated();
    g.make_move(0, 0, x).unwrap();
    g.make_move(1, 0, o).unwrap();
    let before = g.board;
    for r in 0..3 {
        for c in 0..3 {
            let _ = g.make_move(r, c, x);
            let _ = g.make_move(r, c, o);
        }
    }
    for r in 0..3 {
        for c in 0..3 {
            if before[r][c] != CellState::Empty {
                assert_eq!(g.board[r][c], before[r][c]);
            }
        }
    }
}

#[test]
fn error_texts() {
    assert_eq!(GameError::NameTaken.message(), "Game name already exists");
    assert_eq!(GameError::GameNotFound.message(), "Game not found");
    assert_eq!(GameError::GameFull.message(), "Game is full");
    assert_eq!(GameError::GameOver.message(), "Game is over");
    assert_eq!(GameError::CellOccupied.message(), "Cell is already occupied");
    assert_eq!(GameError::PlayerNotFound.message(), "Player not found");
    assert_eq!(GameError::NotYourTurn.message(), "Not your turn");
    assert_eq!(GameError::OutOfRange.message(), "Cell is outside the board");
    assert_eq!(GameError::IdInUse.message(), "Generated id is already in use");
}

#[test]
fn snapshot_copies_the_game() {
    let (mut g, x, _) = two_seated();
    g.make_move(2, 2, x).unwrap();
    let s = g.snapshot();
    assert_eq!(s.id, g.id);
    assert_eq!(s.name, g.name);
    assert_eq!(s.board, g.board);
    assert_eq!(s.current_player, g.current_player);
    assert_eq!(s.players.len(), 2);
    assert_eq!(s.players[1].name, "Bob");
    assert_eq!(s.players[1].id, 200);
    assert_eq!(s.winner, g.winner);
    assert_eq!(s.is_full, g.is_full);
}
