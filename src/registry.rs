use vstd::prelude::*;

use crate::error::GameError;
use crate::game::{
    board_empty, is_seated, move_error, moved, seat_symbol, seated, CellState, GameState, Player,
};
use crate::ids::fresh_id;
use crate::messages::GameInfo;

verus! {

/// The position of the game named `name`, if there is one.
pub open spec fn name_index(games: Seq<GameState>, name: Seq<char>) -> Option<int> {
    if exists|i: int| 0 <= i < games.len() && #[trigger] games[i].name@ == name {
        Some(choose|i: int| 0 <= i < games.len() && #[trigger] games[i].name@ == name)
    } else {
        None
    }
}

/// The position of the game with id `id`, if there is one.
pub open spec fn id_index(games: Seq<GameState>, id: u128) -> Option<int> {
    if exists|i: int| 0 <= i < games.len() && #[trigger] games[i].id == id {
        Some(choose|i: int| 0 <= i < games.len() && #[trigger] games[i].id == id)
    } else {
        None
    }
}

/// The invariant of the registry: every game is well formed, and no two
/// games share a name or an id, so that each name and each id resolves to
/// exactly one live game.
pub open spec fn registry_wf(games: Seq<GameState>) -> bool {
    &&& forall|i: int| 0 <= i < games.len() ==> (#[trigger] games[i]).wf()
    &&& forall|i: int, j: int|
        0 <= i < games.len() && 0 <= j < games.len() && i != j ==> (#[trigger] games[i]).name@
            != (#[trigger] games[j]).name@
    &&& forall|i: int, j: int|
        0 <= i < games.len() && 0 <= j < games.len() && i != j ==> (#[trigger] games[i]).id
            != (#[trigger] games[j]).id
}

/// `g` is a game just opened under id `id` and name `name`, whose only seat
/// is taken by `player_name` with id `player_id`, playing X.
pub open spec fn opened(g: GameState, id: u128, name: String, player_id: u128, player_name: String) -> bool {
    &&& g.id == id
    &&& g.name == name
    &&& board_empty(g.board)
    &&& g.current_player == CellState::X
    &&& g.players@ == seq![Player { id: player_id, name: player_name, symbol: CellState::X }]
    &&& g.winner is None
    &&& !g.is_full
    &&& !g.game_over
}

/// What a move request did to one game: a refused move leaves it as it was,
/// a legal one is played.
pub open spec fn move_outcome(
    g: GameState,
    h: GameState,
    row: int,
    col: int,
    player_id: u128,
    r: Result<(), GameError>,
) -> bool {
    match move_error(g, row, col, player_id) {
        Some(e) => r == Err::<(), GameError>(e) && h == g,
        None => r is Ok && moved(g, h, row, col),
    }
}

/// What a create request did to the registry `old`, leaving `new`: a taken
/// name is refused; otherwise the game is opened under fresh ids, unless the
/// drawn game id was already held by another game (so never on an empty
/// registry).
pub open spec fn create_outcome(
    old: Seq<GameState>,
    new: Seq<GameState>,
    game_name: String,
    player_name: String,
    r: Result<(u128, u128), GameError>,
) -> bool {
    if name_index(old, game_name@) is Some {
        r == Err::<(u128, u128), GameError>(GameError::NameTaken) && new == old
    } else {
        match r {
            Ok((game_id, player_id)) => {
                &&& id_index(old, game_id) is None
                &&& new.len() == old.len() + 1
                &&& new.drop_last() == old
                &&& opened(new.last(), game_id, game_name, player_id, player_name)
            },
            Err(e) => e == GameError::IdInUse && old.len() > 0 && new == old,
        }
    }
}

/// What a join request did to the registry `old`, leaving `new`: an unknown
/// name or a full game is refused; otherwise the player takes the next seat,
/// unless the drawn player id was already held by the player seated there.
pub open spec fn join_outcome(
    old: Seq<GameState>,
    new: Seq<GameState>,
    game_name: String,
    player_name: String,
    r: Result<(u128, u128), GameError>,
) -> bool {
    match name_index(old, game_name@) {
        None => r == Err::<(u128, u128), GameError>(GameError::GameNotFound) && new == old,
        Some(i) => {
            let g = old[i];
            if g.players@.len() >= 2 {
                r == Err::<(u128, u128), GameError>(GameError::GameFull) && new == old
            } else {
                match r {
                    Ok((game_id, player_id)) => {
                        &&& game_id == g.id
                        &&& new == old.update(i, new[i])
                        &&& seated(
                            g,
                            new[i],
                            Player {
                                id: player_id,
                                name: player_name,
                                symbol: seat_symbol(g.players@.len() as int),
                            },
                        )
                    },
                    Err(e) => e == GameError::IdInUse && old.len() > 0 && new == old,
                }
            }
        },
    }
}

/// What a move request did to the registry `old`, leaving `new`: an unknown
/// game id is refused; otherwise the game with that id alone is affected, as
/// a move on it says.
pub open spec fn move_request(
    old: Seq<GameState>,
    new: Seq<GameState>,
    game_id: u128,
    row: int,
    col: int,
    player_id: u128,
    r: Result<(), GameError>,
) -> bool {
    match id_index(old, game_id) {
        None => r == Err::<(), GameError>(GameError::GameNotFound) && new == old,
        Some(i) => {
            &&& new == old.update(i, new[i])
            &&& move_outcome(old[i], new[i], row, col, player_id, r)
        },
    }
}

/// The summary of one game.
pub open spec fn info_of(g: GameState) -> GameInfo {
    GameInfo { id: g.id, name: g.name, player_count: g.players@.len() as usize, is_full: g.is_full }
}

/// The summaries of the games that still have a free seat, in registry order.
pub open spec fn open_infos(games: Seq<GameState>) -> Seq<GameInfo>
    decreases games.len(),
{
    if games.len() == 0 {
        Seq::empty()
    } else if games.last().is_full {
        open_infos(games.drop_last())
    } else {
        open_infos(games.drop_last()).push(info_of(games.last()))
    }
}

/// The registry of live games, in the order they were created.
pub struct GameManager {
    games: Vec<GameState>,
}

impl View for GameManager {
    type V = Seq<GameState>;

    closed spec fn view(&self) -> Seq<GameState> {
        self.games@
    }
}

impl GameManager {
    pub open spec fn wf(&self) -> bool {
        registry_wf(self@)
    }

    /// An empty registry.
    pub fn new() -> (r: GameManager)
        ensures
            r.wf(),
            r@ == Seq::<GameState>::empty(),
    {
        GameManager { games: Vec::new() }
    }

    fn find_by_name(&self, name: &String) -> (r: Option<usize>)
        requires
            self.wf(),
        ensures
            match r {
                Some(i) => name_index(self@, name@) == Some(i as int) && i < self@.len(),
                None => name_index(self@, name@) is None,
            },
    {
        let mut i: usize = 0;
        while i < self.games.len()
            invariant
                self.wf(),
                0 <= i <= self.games@.len(),
                forall|j: int| 0 <= j < i ==> #[trigger] self.games@[j].name@ != name@,
            decreases self.games@.len() - i,
        {
            if self.games[i].name == *name {
                assert(self@[i as int].name@ == name@);
                proof {
                    let j = choose|j: int| 0 <= j < self@.len() && #[trigger] self@[j].name@ == name@;
                    assert(j == i) by {
                        if j != i {
                            assert(self@[j].name@ != self@[i as int].name@);
                        }
                    }
                }
                return Some(i);
            }
            i = i + 1;
        }
        None
    }

    fn find_by_id(&self, id: u128) -> (r: Option<usize>)
        requires
            self.wf(),
        ensures
            match r {
                Some(i) => id_index(self@, id) == Some(i as int) && i < self@.len(),
                None => id_index(self@, id) is None,
            },
    {
        let mut i: usize = 0;
        while i < self.games.len()
            invariant
                self.wf(),
                0 <= i <= self.games@.len(),
                forall|j: int| 0 <= j < i ==> #[trigger] self.games@[j].id != id,
            decreases self.games@.len() - i,
        {
            if self.games[i].id == id {
                assert(self@[i as int].id == id);
                proof {
                    let j = choose|j: int| 0 <= j < self@.len() && #[trigger] self@[j].id == id;
                    assert(j == i) by {
                        if j != i {
                            assert(self@[j].id != self@[i as int].id);
                        }
                    }
                }
                return Some(i);
            }
            i = i + 1;
        }
        None
    }

    /// Opens a game named `game_name` under id `game_id`, with its creator
    /// `player_name` seated as X under id `player_id`.
    pub fn create_game_with_ids(
        &mut self,
        game_name: String,
        player_name: String,
        game_id: u128,
        player_id: u128,
    ) -> (r: Result<(u128, u128), GameError>)
        requires
            old(self).wf(),
        ensures
            final(self).wf(),
            name_index(old(self)@, game_name@) is Some ==> r == Err::<(u128, u128), GameError>(
                GameError::NameTaken,
            ) && final(self)@ == old(self)@,
            name_index(old(self)@, game_name@) is None && id_index(old(self)@, game_id) is Some
                ==> r == Err::<(u128, u128), GameError>(GameError::IdInUse) && final(self)@ == old(self)@,
            name_index(old(self)@, game_name@) is None && id_index(old(self)@, game_id) is None
                ==> {
                &&& r == Ok::<(u128, u128), GameError>((game_id, player_id))
                &&& final(self)@.len() == old(self)@.len() + 1
                &&& final(self)@.drop_last() == old(self)@
                &&& opened(final(self)@.last(), game_id, game_name, player_id, player_name)
            },
    {
        if self.find_by_name(&game_name).is_some() {
            return Err(GameError::NameTaken);
        }
        if self.find_by_id(game_id).is_some() {
            return Err(GameError::IdInUse);
        }
        let ghost old_games = self.games@;
        let mut game = GameState::new_with_id(game_name, game_id);
        let player = match game.add_player_with_id(player_name, player_id) {
            Ok(p) => p,
            Err(e) => {
                return Err(e);
            },
        };
        assert(game.players@ =~= seq![Player { id: player_id, name: player_name, symbol: CellState::X }]);
        self.games.push(game);
        assert(self.games@.drop_last() =~= old_games);
        assert(forall|i: int| 0 <= i < old_games.len() ==> old_games[i].name@ != game_name@);
        assert(forall|i: int| 0 <= i < old_games.len() ==> old_games[i].id != game_id);
        Ok((game_id, player.id))
    }

    /// Opens a game named `game_name` under a freshly drawn id, with its
    /// creator `player_name` seated as X under another freshly drawn id.
    pub fn create_game(&mut self, game_name: String, player_name: String) -> (r: Result<
        (u128, u128),
        GameError,
    >)
        requires
            old(self).wf(),
        ensures
            final(self).wf(),
            create_outcome(old(self)@, final(self)@, game_name, player_name, r),
    {
        let game_id = fresh_id();
        let player_id = fresh_id();
        self.create_game_with_ids(game_name, player_name, game_id, player_id)
    }

    /// Seats `player_name` under id `player_id` in the game named `game_name`.
    pub fn join_game_with_id(&mut self, game_name: String, player_name: String, player_id: u128) -> (r:
        Result<(u128, u128), GameError>)
        requires
            old(self).wf(),
        ensures
            final(self).wf(),
            match name_index(old(self)@, game_name@) {
                None => r == Err::<(u128, u128), GameError>(GameError::GameNotFound) && final(self)@ == old(self)@,
                Some(i) => {
                    let g = old(self)@[i];
                    if g.players@.len() >= 2 {
                        r == Err::<(u128, u128), GameError>(GameError::GameFull) && final(self)@
                            == old(self)@
                    } else if is_seated(g.players@, player_id) {
                        r == Err::<(u128, u128), GameError>(GameError::IdInUse) && final(self)@
                            == old(self)@
                    } else {
                        &&& r == Ok::<(u128, u128), GameError>((g.id, player_id))
                        &&& final(self)@ == old(self)@.update(i, final(self)@[i])
                        &&& seated(
                            g,
                            final(self)@[i],
                            Player {
                                id: player_id,
                                name: player_name,
                                symbol: seat_symbol(g.players@.len() as int),
                            },
                        )
                    }
                },
            },
    {
        let i = match self.find_by_name(&game_name) {
            Some(i) => i,
            None => {
                return Err(GameError::GameNotFound);
            },
        };
        let ghost old_games = self.games@;
        let game_id = self.games[i].id;
        let res = self.games[i].add_player_with_id(player_name, player_id);
        assert(self.games@ == old_games.update(i as int, self.games@[i as int]));
        assert forall|j: int, k: int|
            0 <= j < self@.len() && 0 <= k < self@.len() && j != k implies (#[trigger] self@[j]).name@
            != (#[trigger] self@[k]).name@ && self@[j].id != self@[k].id by {
            assert(old_games[j].name@ != old_games[k].name@);
            assert(old_games[j].id != old_games[k].id);
        }
        match res {
            Ok(p) => Ok((game_id, p.id)),
            Err(e) => Err(e),
        }
    }

    /// Seats `player_name` under a freshly drawn id in the game named `game_name`.
    pub fn join_game(&mut self, game_name: String, player_name: String) -> (r: Result<
        (u128, u128),
        GameError,
    >)
        requires
            old(self).wf(),
        ensures
            final(self).wf(),
            join_outcome(old(self)@, final(self)@, game_name, player_name, r),
    {
        let player_id = fresh_id();
        self.join_game_with_id(game_name, player_name, player_id)
    }

    /// Plays the move of player `player_id` at (`row`, `col`) in the game with
    /// id `game_id`.
    pub fn make_move(&mut self, game_id: u128, row: usize, col: usize, player_id: u128) -> (r: Result<
        (),
        GameError,
    >)
        requires
            old(self).wf(),
        ensures
            final(self).wf(),
            move_request(old(self)@, final(self)@, game_id, row as int, col as int, player_id, r),
    {
        let i = match self.find_by_id(game_id) {
            Some(i) => i,
            None => {
                return Err(GameError::GameNotFound);
            },
        };
        let ghost old_games = self.games@;
        let res = self.games[i].make_move(row, col, player_id);
        assert(self.games@ == old_games.update(i as int, self.games@[i as int]));
        assert forall|j: int, k: int|
            0 <= j < self@.len() && 0 <= k < self@.len() && j != k implies (#[trigger] self@[j]).name@
            != (#[trigger] self@[k]).name@ && self@[j].id != self@[k].id by {
            assert(old_games[j].name@ != old_games[k].name@);
            assert(old_games[j].id != old_games[k].id);
        }
        res
    }

    /// The game with id `game_id`, if there is one.
    pub fn get_game(&self, game_id: u128) -> (r: Option<&GameState>)
        requires
            self.wf(),
        ensures
            match id_index(self@, game_id) {
                None => r is None,
                Some(i) => r matches Some(g) && *g == self@[i],
            },
    {
        match self.find_by_id(game_id) {
            Some(i) => Some(&self.games[i]),
            None => None,
        }
    }

    /// The summaries of the games that still have a free seat, in the order
    /// the games were created.
    pub fn get_available_games(&self) -> (r: Vec<GameInfo>)
        ensures
            r@ == open_infos(self@),
    {
        let mut r: Vec<GameInfo> = Vec::new();
        let mut i: usize = 0;
        while i < self.games.len()
            invariant
                0 <= i <= self.games@.len(),
                r@ == open_infos(self.games@.subrange(0, i as int)),
            decreases self.games@.len() - i,
        {
            let game = &self.games[i];
            assert(self.games@.subrange(0, i + 1).drop_last() =~= self.games@.subrange(0, i as int));
            if !game.is_full {
                r.push(
                    GameInfo {
                        id: game.id,
                        name: game.name.clone(),
                        player_count: game.players.len(),
                        is_full: game.is_full,
                    },
                );
            }
            i = i + 1;
        }
        assert(self.games@.subrange(0, self.games@.len() as int) =~= self.games@);
        r
    }
}

} // verus!
