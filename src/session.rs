use vstd::prelude::*;

use crate::error::{error_text, GameError};
use crate::game::GameState;
use crate::messages::{ClientMessage, GameInfo, ServerMessage};
use crate::registry::{
    create_outcome, id_index, join_outcome, move_request, open_infos, GameManager,
};

verus! {

/// The replies that carry the game with id `game_id` of registry `games`:
/// its state when it exists, nothing otherwise.
pub open spec fn state_replies(games: Seq<GameState>, game_id: u128, replies: Seq<ServerMessage>) -> bool {
    match id_index(games, game_id) {
        Some(i) => {
            &&& replies.len() == 1
            &&& replies[0] matches ServerMessage::GameState(g) && g.same_as(games[i])
        },
        None => replies.len() == 0,
    }
}

/// `replies` is the single error message for `e`.
pub open spec fn error_replies(e: GameError, replies: Seq<ServerMessage>) -> bool {
    &&& replies.len() == 1
    &&& replies[0] matches ServerMessage::Error(t) && t@ == error_text(e)
}

/// `replies` is the single list of open games of registry `games`.
pub open spec fn listing_replies(games: Seq<GameState>, replies: Seq<ServerMessage>) -> bool {
    &&& replies.len() == 1
    &&& replies[0] matches ServerMessage::AvailableGames(v) && v@ == open_infos(games)
}

/// The connection state `s0` becomes `s1` with `replies` sent, after a create
/// (`created`) or join request whose result was `r` and left registry `games`:
/// on success the connection is bound to the new seat and is told its ids and
/// the game's state; on failure it stays as it was and is told the error.
pub open spec fn bind_replies(
    created: bool,
    r: Result<(u128, u128), GameError>,
    games: Seq<GameState>,
    s0: GameWebSocket,
    s1: GameWebSocket,
    replies: Seq<ServerMessage>,
) -> bool {
    match r {
        Ok((game_id, player_id)) => {
            &&& s1 == (GameWebSocket { game_id: Some(game_id), player_id: Some(player_id) })
            &&& replies.len() >= 1
            &&& if created {
                replies[0] == (ServerMessage::GameCreated { game_id, player_id })
            } else {
                replies[0] == (ServerMessage::GameJoined { game_id, player_id })
            }
            &&& state_replies(games, game_id, replies.drop_first())
        },
        Err(e) => s1 == s0 && error_replies(e, replies),
    }
}

/// The state of one client connection: unbound, or bound to a seat (a game id
/// and a player id) after a successful create or join.
#[derive(Debug, Clone, Copy, PartialEq, Eq, Structural)]
pub struct GameWebSocket {
    pub game_id: Option<u128>,
    pub player_id: Option<u128>,
}

impl GameWebSocket {
    /// A connection not yet bound to any game.
    pub fn new() -> (r: GameWebSocket)
        ensures
            r.game_id is None,
            r.player_id is None,
    {
        GameWebSocket { game_id: None, player_id: None }
    }

    fn state_of(manager: &GameManager, game_id: u128, replies: &mut Vec<ServerMessage>)
        requires
            manager.wf(),
        ensures
            final(replies)@.len() >= old(replies)@.len(),
            final(replies)@.subrange(0, old(replies)@.len() as int) == old(replies)@,
            state_replies(manager@, game_id, final(replies)@.subrange(old(replies)@.len() as int, final(replies)@.len() as int)),
    {
        let ghost start = replies@;
        match manager.get_game(game_id) {
            Some(game) => {
                replies.push(ServerMessage::GameState(game.snapshot()));
            },
            None => {},
        }
        assert(replies@.subrange(0, start.len() as int) =~= start);
    }

    /// Answers one client request against the shared registry `manager`,
    /// returning the replies for this connection in the order they are sent.
    /// A move request on an unbound connection is ignored.
    pub fn handle_client_message(&mut self, manager: &mut GameManager, msg: ClientMessage) -> (r: Vec<
        ServerMessage,
    >)
        requires
            old(manager).wf(),
        ensures
            final(manager).wf(),
            match msg {
                ClientMessage::CreateGame { game_name, player_name } => exists|
                    res: Result<(u128, u128), GameError>,
                |
                    {
                        &&& create_outcome(old(manager)@, final(manager)@, game_name, player_name, res)
                        &&& bind_replies(true, res, final(manager)@, *old(self), *final(self), r@)
                    },
                ClientMessage::JoinGame { game_name, player_name } => exists|
                    res: Result<(u128, u128), GameError>,
                |
                    {
                        &&& join_outcome(old(manager)@, final(manager)@, game_name, player_name, res)
                        &&& bind_replies(false, res, final(manager)@, *old(self), *final(self), r@)
                    },
                ClientMessage::MakeMove { row, col } => {
                    &&& *final(self) == *old(self)
                    &&& match (old(self).game_id, old(self).player_id) {
                        (Some(game_id), Some(player_id)) => exists|res: Result<(), GameError>|
                            {
                                &&& move_request(
                                    old(manager)@,
                                    final(manager)@,
                                    game_id,
                                    row as int,
                                    col as int,
                                    player_id,
                                    res,
                                )
                                &&& match res {
                                    Ok(()) => state_replies(final(manager)@, game_id, r@),
                                    Err(e) => error_replies(e, r@),
                                }
                            },
                        _ => r@.len() == 0 && final(manager)@ == old(manager)@,
                    }
                },
                ClientMessage::GetAvailableGames => {
                    &&& *final(self) == *old(self)
                    &&& final(manager)@ == old(manager)@
                    &&& listing_replies(old(manager)@, r@)
                },
            },
    {
        let mut replies: Vec<ServerMessage> = Vec::new();
        match msg {
            ClientMessage::CreateGame { game_name, player_name } => {
                let res = manager.create_game(game_name, player_name);
                match res {
                    Ok((game_id, player_id)) => {
                        self.game_id = Some(game_id);
                        self.player_id = Some(player_id);
                        replies.push(ServerMessage::GameCreated { game_id, player_id });
                        let ghost first = replies@;
                        GameWebSocket::state_of(manager, game_id, &mut replies);
                        assert(replies@[0] == replies@.subrange(0, 1)[0]);
                        assert(replies@[0] == first[0]);
                        assert(replies@.drop_first() =~= replies@.subrange(1, replies@.len() as int));
                    },
                    Err(e) => {
                        replies.push(ServerMessage::Error(e.message()));
                    },
                }
                assert(bind_replies(true, res, manager@, *old(self), *self, replies@));
            },
            ClientMessage::JoinGame { game_name, player_name } => {
                let res = manager.join_game(game_name, player_name);
                match res {
                    Ok((game_id, player_id)) => {
                        self.game_id = Some(game_id);
                        self.player_id = Some(player_id);
                        replies.push(ServerMessage::GameJoined { game_id, player_id });
                        let ghost first = replies@;
                        GameWebSocket::state_of(manager, game_id, &mut replies);
                        assert(replies@[0] == replies@.subrange(0, 1)[0]);
                        assert(replies@[0] == first[0]);
                        assert(replies@.drop_first() =~= replies@.subrange(1, replies@.len() as int));
                    },
                    Err(e) => {
                        replies.push(ServerMessage::Error(e.message()));
                    },
                }
                assert(bind_replies(false, res, manager@, *old(self), *self, replies@));
            },
            ClientMessage::MakeMove { row, col } => {
                match (self.game_id, self.player_id) {
                    (Some(game_id), Some(player_id)) => {
                        let res = manager.make_move(game_id, row, col, player_id);
                        match res {
                            Ok(()) => {
                                GameWebSocket::state_of(manager, game_id, &mut replies);
                                assert(replies@ =~= replies@.subrange(0, replies@.len() as int));
                            },
                            Err(e) => {
                                replies.push(ServerMessage::Error(e.message()));
                            },
                        }
                    },
                    _ => {},
                }
            },
            ClientMessage::GetAvailableGames => {
                let games: Vec<GameInfo> = manager.get_available_games();
                replies.push(ServerMessage::AvailableGames(games));
            },
        }
        replies
    }
}

} // verus!
