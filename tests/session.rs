use tictactoe_sessions::{CellState, ClientMessage, GameManager, GameWebSocket, ServerMessage};

fn create(name: &str, player: &str) -> ClientMessage {
    ClientMessage::CreateGame { game_name: name.to_string(), player_name: player.to_string() }
}

fn join(name: &str, player: &str) -> ClientMessage {
    ClientMessage::JoinGame { game_name: name.to_string(), player_name: player.to_string() }
}

#[test]
fn create_binds_and_replies_with_ids_then_state() {
    let mut m = GameManager::new();
    let mut s = GameWebSocket::new();
    assert_eq!(s.game_id, None);
    let replies = s.handle_client_message(&mut m, create("room1", "Alice"));
    assert_eq!(replies.len(), 2);
    let (g, p) = match &replies[0] {
        ServerMessage::GameCreated { game_id, player_id } => (*game_id, *player_id),
        other => panic!("unexpected {:?}", other),
    };
    assert_eq!(s.game_id, Some(g));
    assert_eq!(s.player_id, Some(p));
    match &replies[1] {
        ServerMessage::GameState(game) => {
            assert_eq!(game.id, g);
            assert_eq!(game.players.len(), 1);
        }
        other => panic!("unexpected {:?}", other),
    }
}

#[test]
fn failed_create_stays_unbound_with_error() {
    let mut m = GameManager::new();
    let mut first = GameWebSocket::new();
    first.handle_client_message(&mut m, create("room1", "Alice"));
    let mut s = GameWebSocket::new();
    let replies = s.handle_client_message(&mut m, create("room1", "Bob"));
    assert_eq!(replies.len(), 1);
    match &replies[0] {
        ServerMessage::Error(t) => assert_eq!(t, "Game name already exists"),
        other => panic!("unexpected {:?}", other),
    }
    assert_eq!(s.game_id, None);
    assert_eq!(s.player_id, None);
}

#[test]
fn move_while_unbound_is_ignored() {
    let mut m = GameManager::new();
    let mut s = GameWebSocket::new();
    let replies = s.handle_client_message(&mut m, ClientMessage::MakeMove { row: 0, col: 0 });
    assert!(replies.is_empty());
}

#[test]
fn join_then_moves_report_state_or_error() {
    let mut m = GameManager::new();
    let mut a = GameWebSocket::new();
    let mut b = GameWebSocket::new();
    a.handle_client_message(&mut m, create("t", "Alice"));
    let replies = b.handle_client_message(&mut m, join("t", "Bob"));
    assert_eq!(replies.len(), 2);
    assert!(matches!(replies[0], ServerMessage::GameJoined { .. }));
    assert_eq!(a.game_id, b.game_id);

    let replies = b.handle_client_message(&mut m, ClientMessage::MakeMove { row: 0, col: 0 });
    match &replies[..] {
        [ServerMessage::Error(t)] => assert_eq!(t, "Not your turn"),
        other => panic!("unexpected {:?}", other),
    }
    let replies = a.handle_client_message(&mut m, ClientMessage::MakeMove { row: 0, col: 0 });
    match &replies[..] {
        [ServerMessage::GameState(g)] => {
            assert_eq!(g.board[0][0], CellState::X);
            assert_eq!(g.current_player, CellState::O);
        }
        other => panic!("unexpected {:?}", other),
    }
}

#[test]
fn listing_is_sent_in_any_state() {
    let mut m = GameManager::new();
    let mut a = GameWebSocket::new();
    a.handle_client_message(&mut m, create("open", "Alice"));
    let mut b = GameWebSocket::new();
    let replies = b.handle_client_message(&mut m, ClientMessage::GetAvailableGames);
    match &replies[..] {
        [ServerMessage::AvailableGames(list)] => {
            assert_eq!(list.len(), 1);
            assert_eq!(list[0].name, "open");
            assert!(!list[0].is_full);
        }
        other => panic!("unexpected {:?}", other),
    }
    b.handle_client_message(&mut m, join("open", "Bob"));
    let replies = b.handle_client_message(&mut m, ClientMessage::GetAvailableGames);
    match &replies[..] {
        [ServerMessage::AvailableGames(list)] => assert!(list.is_empty()),
        other => panic!("unexpected {:?}", other),
    }
}
