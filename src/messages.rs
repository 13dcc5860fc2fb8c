use vstd::prelude::*;

use crate::game::GameState;

verus! {

/// A request sent by a client over its connection.
#[derive(Debug, Clone)]
pub enum ClientMessage {
    CreateGame { game_name: String, player_name: String },
    JoinGame { game_name: String, player_name: String },
    MakeMove { row: usize, col: usize },
    GetAvailableGames,
}

/// A reply sent back to a client over its connection.
#[derive(Debug, Clone)]
pub enum ServerMessage {
    GameCreated { game_id: u128, player_id: u128 },
    GameJoined { game_id: u128, player_id: u128 },
    GameState(GameState),
    AvailableGames(Vec<GameInfo>),
    Error(String),
    PlayerConnected { player_name: String },
    PlayerDisconnected { player_name: String },
}

/// The summary of a game shown in the list of open games.
#[derive(Debug, Clone)]
pub struct GameInfo {
    pub id: u128,
    pub name: String,
    pub player_count: usize,
    pub is_full: bool,
}

} // verus!
