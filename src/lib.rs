//! Session manager for two-player tic-tac-toe games: the board and turn
//! rules of a single game, the registry of live games, and the per-connection
//! state machine that turns client requests into replies.

pub mod error;
pub mod game;
pub mod lemmas;
mod ids;

pub use error::GameError;
pub use game::{CellState, GameState, Player};
pub mod messages;
pub mod registry;
pub mod session;

pub use messages::{ClientMessage, GameInfo, ServerMessage};
pub use registry::GameManager;
pub use session::GameWebSocket;
