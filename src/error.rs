use vstd::prelude::*;

verus! {

/// Every way a request against a game or the registry can be refused.
#[derive(Debug, Clone, Copy, PartialEq, Eq, Structural)]
pub enum GameError {
    /// A game with the requested name already exists.
    NameTaken,
    /// No game has the requested name or id.
    GameNotFound,
    /// Both seats of the game are taken.
    GameFull,
    /// The game has already ended.
    GameOver,
    /// The target cell already holds a symbol.
    CellOccupied,
    /// The acting player is not seated in the game.
    PlayerNotFound,
    /// The acting player's symbol is not the one expected to move.
    NotYourTurn,
    /// The row or column lies outside the board.
    OutOfRange,
    /// A freshly drawn id is already held by another game or player.
    IdInUse,
}

/// The text sent to a client for each error.
pub open spec fn error_text(e: GameError) -> Seq<char> {
    match e {
        GameError::NameTaken => "Game name already exists"@,
        GameError::GameNotFound => "Game not found"@,
        GameError::GameFull => "Game is full"@,
        GameError::GameOver => "Game is over"@,
        GameError::CellOccupied => "Cell is already occupied"@,
        GameError::PlayerNotFound => "Player not found"@,
        GameError::NotYourTurn => "Not your turn"@,
        GameError::OutOfRange => "Cell is outside the board"@,
        GameError::IdInUse => "Generated id is already in use"@,
    }
}

impl GameError {
    /// The human-readable text of this error.
    pub fn message(&self) -> (r: String)
        ensures
            r@ == error_text(*self),
    {
        match self {
            GameError::NameTaken => String::from_str("Game name already exists"),
            GameError::GameNotFound => String::from_str("Game not found"),
            GameError::GameFull => String::from_str("Game is full"),
            GameError::GameOver => String::from_str("Game is over"),
            GameError::CellOccupied => String::from_str("Cell is already occupied"),
            GameError::PlayerNotFound => String::from_str("Player not found"),
            GameError::NotYourTurn => String::from_str("Not your turn"),
            GameError::OutOfRange => String::from_str("Cell is outside the board"),
            GameError::IdInUse => String::from_str("Generated id is already in use"),
        }
    }
}

} // verus!
