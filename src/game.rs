use vstd::prelude::*;

use crate::error::GameError;
use crate::ids::fresh_id;

verus! {

/// The content of one board cell, and the symbol a player places.
#[derive(Debug, Clone, Copy, PartialEq, Eq, Structural)]
pub enum CellState {
    Empty,
    X,
    O,
}

/// The 3x3 board, indexed by row then column.
pub type Board = [[CellState; 3]; 3];

/// The cell at row `r`, column `c`.
pub open spec fn cell(b: Board, r: int, c: int) -> CellState {
    b@[r]@[c]
}

pub open spec fn in_board(r: int, c: int) -> bool {
    0 <= r < 3 && 0 <= c < 3
}

/// The three cells (r0, c0), (r1, c1), (r2, c2) hold the same non-empty symbol.
pub open spec fn three_alike(b: Board, r0: int, c0: int, r1: int, c1: int, r2: int, c2: int) -> bool {
    &&& cell(b, r0, c0) != CellState::Empty
    &&& cell(b, r0, c0) == cell(b, r1, c1)
    &&& cell(b, r1, c1) == cell(b, r2, c2)
}

/// Line `k` of the eight lines of the board holds three alike, where lines
/// 0..3 are the rows, 3..6 the columns, 6 the main diagonal and 7 the
/// anti-diagonal.
pub open spec fn line_alike(b: Board, k: int) -> bool {
    if 0 <= k < 3 {
        three_alike(b, k, 0, k, 1, k, 2)
    } else if 3 <= k < 6 {
        three_alike(b, 0, k - 3, 1, k - 3, 2, k - 3)
    } else if k == 6 {
        three_alike(b, 0, 0, 1, 1, 2, 2)
    } else if k == 7 {
        three_alike(b, 0, 2, 1, 1, 2, 0)
    } else {
        false
    }
}

/// Cell (r, c) lies on line `k`.
pub open spec fn on_line(k: int, r: int, c: int) -> bool {
    ||| (0 <= k < 3 && r == k && in_board(r, c))
    ||| (3 <= k < 6 && c == k - 3 && in_board(r, c))
    ||| (k == 6 && r == c && in_board(r, c))
    ||| (k == 7 && r + c == 2 && in_board(r, c))
}

/// Some row, column or diagonal holds three alike.
pub open spec fn has_winning_line(b: Board) -> bool {
    exists|k: int| 0 <= k < 8 && #[trigger] line_alike(b, k)
}

/// No cell of the board is empty.
pub open spec fn board_full(b: Board) -> bool {
    forall|r: int, c: int| in_board(r, c) ==> #[trigger] cell(b, r, c) != CellState::Empty
}

/// The symbol that moves after `s`.
pub open spec fn other_symbol(s: CellState) -> CellState {
    match s {
        CellState::X => CellState::O,
        CellState::O => CellState::X,
        CellState::Empty => CellState::X,
    }
}

/// Whether the board holds a row, column or diagonal of three alike.
pub fn check_winner(board: &Board) -> (r: bool)
    ensures
        r == has_winning_line(*board),
{
    let mut i: usize = 0;
    while i < 3
        invariant
            0 <= i <= 3,
            forall|k: int| 0 <= k < i ==> !#[trigger] line_alike(*board, k),
            forall|k: int| 3 <= k < 3 + i ==> !#[trigger] line_alike(*board, k),
        decreases 3 - i,
    {
        if board[i][0] != CellState::Empty && board[i][0] == board[i][1] && board[i][1]
            == board[i][2] {
            assert(line_alike(*board, i as int));
            return true;
        }
        if board[0][i] != CellState::Empty && board[0][i] == board[1][i] && board[1][i]
            == board[2][i] {
            assert(line_alike(*board, i + 3));
            return true;
        }
        i = i + 1;
    }
    if board[0][0] != CellState::Empty && board[0][0] == board[1][1] && board[1][1]
        == board[2][2] {
        assert(line_alike(*board, 6));
        return true;
    }
    if board[0][2] != CellState::Empty && board[0][2] == board[1][1] && board[1][1]
        == board[2][0] {
        assert(line_alike(*board, 7));
        return true;
    }
    assert forall|k: int| 0 <= k < 8 implies !#[trigger] line_alike(*board, k) by {
        if k < 3 {
        } else if k < 6 {
        }
    }
    false
}

/// Whether every cell of the board holds a symbol.
pub fn is_board_full(board: &Board) -> (r: bool)
    ensures
        r == board_full(*board),
{
    let mut i: usize = 0;
    while i < 3
        invariant
            0 <= i <= 3,
            forall|r: int, c: int| 0 <= r < i && 0 <= c < 3 ==> #[trigger] cell(*board, r, c) != CellState::Empty,
        decreases 3 - i,
    {
        let mut j: usize = 0;
        while j < 3
            invariant
                0 <= i < 3,
                0 <= j <= 3,
                forall|r: int, c: int| 0 <= r < i && 0 <= c < 3 ==> #[trigger] cell(*board, r, c) != CellState::Empty,
                forall|c: int| 0 <= c < j ==> #[trigger] cell(*board, i as int, c) != CellState::Empty,
            decreases 3 - j,
        {
            if board[i][j] == CellState::Empty {
                assert(!board_full(*board)) by {
                    assert(cell(*board, i as int, j as int) == CellState::Empty);
                }
                return false;
            }
            j = j + 1;
        }
        i = i + 1;
    }
    true
}


/// A seated player: an id, a display name (not necessarily unique) and the
/// symbol given by the seat.
#[derive(Debug, Clone)]
pub struct Player {
    pub id: u128,
    pub name: String,
    pub symbol: CellState,
}

/// One game: its board, its seated players in the order they joined, the
/// symbol expected to move next and how the game ended, if it did.
#[derive(Debug, Clone)]
pub struct GameState {
    pub id: u128,
    pub name: String,
    pub board: Board,
    pub current_player: CellState,
    pub players: Vec<Player>,
    pub winner: Option<CellState>,
    pub is_full: bool,
    pub game_over: bool,
}

/// The symbol of seat `i`: the first player plays X, the second O.
pub open spec fn seat_symbol(i: int) -> CellState {
    if i == 0 {
        CellState::X
    } else {
        CellState::O
    }
}

/// Some seated player has id `pid`.
pub open spec fn is_seated(players: Seq<Player>, pid: u128) -> bool {
    exists|i: int| 0 <= i < players.len() && #[trigger] players[i].id == pid
}

/// The seated player with id `pid` plays symbol `s`.
pub open spec fn seated_with(players: Seq<Player>, pid: u128, s: CellState) -> bool {
    exists|i: int| 0 <= i < players.len() && #[trigger] players[i].id == pid && players[i].symbol == s
}

/// Every cell of the board is empty.
pub open spec fn board_empty(b: Board) -> bool {
    forall|r: int, c: int| in_board(r, c) ==> #[trigger] cell(b, r, c) == CellState::Empty
}

/// Why a move at (`row`, `col`) by player `pid` is refused, checked in this
/// order: the game is over, the cell is off the board, the cell is taken, the
/// player is not seated, it is not the player's turn. `None` when it is legal.
pub open spec fn move_error(g: GameState, row: int, col: int, pid: u128) -> Option<GameError> {
    if g.game_over {
        Some(GameError::GameOver)
    } else if !in_board(row, col) {
        Some(GameError::OutOfRange)
    } else if cell(g.board, row, col) != CellState::Empty {
        Some(GameError::CellOccupied)
    } else if !is_seated(g.players@, pid) {
        Some(GameError::PlayerNotFound)
    } else if !seated_with(g.players@, pid, g.current_player) {
        Some(GameError::NotYourTurn)
    } else {
        None
    }
}

/// `h` is `g` after the symbol to move was placed at (`row`, `col`) and the
/// end of the game was evaluated: a completed line makes that symbol the
/// winner, a full board without one is a draw, and otherwise the turn passes.
pub open spec fn moved(g: GameState, h: GameState, row: int, col: int) -> bool {
    let s = g.current_player;
    &&& h.id == g.id
    &&& h.name == g.name
    &&& h.players == g.players
    &&& h.is_full == g.is_full
    &&& forall|r: int, c: int|
        in_board(r, c) ==> #[trigger] cell(h.board, r, c) == if r == row && c == col {
            s
        } else {
            cell(g.board, r, c)
        }
    &&& if has_winning_line(h.board) {
        h.winner == Some(s) && h.game_over && h.current_player == s
    } else if board_full(h.board) {
        h.winner is None && h.game_over && h.current_player == s
    } else {
        h.winner is None && !h.game_over && h.current_player == other_symbol(s)
    }
}

/// `h` is `g` with player `p` seated in the next free seat.
pub open spec fn seated(g: GameState, h: GameState, p: Player) -> bool {
    &&& h.id == g.id
    &&& h.name == g.name
    &&& h.board == g.board
    &&& h.current_player == g.current_player
    &&& h.winner == g.winner
    &&& h.game_over == g.game_over
    &&& h.players@ == g.players@.push(p)
    &&& h.is_full == (h.players@.len() == 2)
}

/// Looks up the seated player with id `pid`.
fn find_player(players: &Vec<Player>, pid: u128) -> (r: Option<usize>)
    ensures
        match r {
            Some(i) => i < players@.len() && players@[i as int].id == pid,
            None => !is_seated(players@, pid),
        },
{
    let mut i: usize = 0;
    while i < players.len()
        invariant
            0 <= i <= players@.len(),
            forall|j: int| 0 <= j < i ==> #[trigger] players@[j].id != pid,
        decreases players@.len() - i,
    {
        if players[i].id == pid {
            return Some(i);
        }
        i = i + 1;
    }
    None
}

impl Player {
    /// A copy of this player.
    pub fn snapshot(&self) -> (r: Player)
        ensures
            r == *self,
    {
        Player { id: self.id, name: self.name.clone(), symbol: self.symbol }
    }
}

impl GameState {
    /// `self` and `o` hold the same game: equal fields, and the same players
    /// in the same order.
    pub open spec fn same_as(&self, o: GameState) -> bool {
        &&& self.id == o.id
        &&& self.name == o.name
        &&& self.board == o.board
        &&& self.current_player == o.current_player
        &&& self.players@ == o.players@
        &&& self.winner == o.winner
        &&& self.is_full == o.is_full
        &&& self.game_over == o.game_over
    }

    /// A copy of this game, as sent to clients.
    pub fn snapshot(&self) -> (r: GameState)
        ensures
            r.same_as(*self),
    {
        let mut players: Vec<Player> = Vec::new();
        let mut i: usize = 0;
        while i < self.players.len()
            invariant
                0 <= i <= self.players@.len(),
                players@ == self.players@.subrange(0, i as int),
            decreases self.players@.len() - i,
        {
            players.push(self.players[i].snapshot());
            i = i + 1;
        }
        assert(players@ =~= self.players@);
        GameState {
            id: self.id,
            name: self.name.clone(),
            board: self.board,
            current_player: self.current_player,
            players,
            winner: self.winner,
            is_full: self.is_full,
            game_over: self.game_over,
        }
    }

    /// The invariant of a game: at most two players, seated X then O with
    /// distinct ids; a winner only once the game is over and a line is
    /// complete; and a game still
    /// running has neither a completed line nor a full board.
    pub open spec fn wf(&self) -> bool {
        &&& self.players@.len() <= 2
        &&& self.is_full == (self.players@.len() == 2)
        &&& forall|i: int| 0 <= i < self.players@.len() ==> #[trigger] self.players@[i].symbol == seat_symbol(i)
        &&& self.players@.len() == 2 ==> self.players@[0].id != self.players@[1].id
        &&& self.current_player != CellState::Empty
        &&& self.winner matches Some(s) ==> self.game_over && s != CellState::Empty
        &&& self.winner is Some ==> has_winning_line(self.board)
        &&& !self.game_over ==> {
            &&& self.winner is None
            &&& !has_winning_line(self.board)
            &&& !board_full(self.board)
        }
    }

    /// A fresh game named `name` with id `id`: empty board, no players, X to move.
    pub open spec fn is_fresh(&self, id: u128, name: String) -> bool {
        &&& self.id == id
        &&& self.name == name
        &&& board_empty(self.board)
        &&& self.current_player == CellState::X
        &&& self.players@.len() == 0
        &&& self.winner is None
        &&& !self.is_full
        &&& !self.game_over
    }

    /// A new game named `name` whose id is `id`.
    pub fn new_with_id(name: String, id: u128) -> (r: GameState)
        ensures
            r.wf(),
            r.is_fresh(id, name),
    {
        let r = GameState {
            id,
            name,
            board: [[CellState::Empty; 3]; 3],
            current_player: CellState::X,
            players: Vec::new(),
            winner: None,
            is_full: false,
            game_over: false,
        };
        assert(!has_winning_line(r.board)) by {
            assert forall|k: int| 0 <= k < 8 implies !#[trigger] line_alike(r.board, k) by {
                if k < 3 {
                } else if k < 6 {
                }
            }
        }
        assert(cell(r.board, 0, 0) == CellState::Empty);
        r
    }

    /// A new game named `name` under a freshly drawn id.
    pub fn new(name: String) -> (r: GameState)
        ensures
            r.wf(),
            r.is_fresh(r.id, name),
    {
        let id = fresh_id();
        GameState::new_with_id(name, id)
    }

    /// Seats a player named `player_name` with id `player_id` in the next free
    /// seat: X for the first seat, O for the second.
    pub fn add_player_with_id(&mut self, player_name: String, player_id: u128) -> (r: Result<
        Player,
        GameError,
    >)
        requires
            old(self).wf(),
        ensures
            final(self).wf(),
            old(self).players@.len() >= 2 ==> r == Err::<Player, GameError>(GameError::GameFull)
                && *final(self) == *old(self),
            old(self).players@.len() < 2 && is_seated(old(self).players@, player_id) ==> r == Err::<
                Player,
                GameError,
            >(GameError::IdInUse) && *final(self) == *old(self),
            old(self).players@.len() < 2 && !is_seated(old(self).players@, player_id) ==> {
                &&& r matches Ok(p)
                &&& p == (Player {
                    id: player_id,
                    name: player_name,
                    symbol: seat_symbol(old(self).players@.len() as int),
                })
                &&& seated(*old(self), *final(self), p)
            },
    {
        if self.players.len() >= 2 {
            return Err(GameError::GameFull);
        }
        if find_player(&self.players, player_id).is_some() {
            return Err(GameError::IdInUse);
        }
        let symbol = if self.players.len() == 0 {
            CellState::X
        } else {
            CellState::O
        };
        let seat = Player { id: player_id, name: player_name.clone(), symbol };
        self.players.push(seat);
        self.is_full = self.players.len() == 2;
        Ok(Player { id: player_id, name: player_name, symbol })
    }

    /// Seats a player named `player_name` under a freshly drawn id; only a
    /// draw equal to the id of the player already seated is refused.
    pub fn add_player(&mut self, player_name: String) -> (r: Result<Player, GameError>)
        requires
            old(self).wf(),
        ensures
            final(self).wf(),
            old(self).players@.len() >= 2 ==> r == Err::<Player, GameError>(GameError::GameFull)
                && *final(self) == *old(self),
            old(self).players@.len() < 2 ==> match r {
                Ok(p) => {
                    &&& p.name == player_name
                    &&& p.symbol == seat_symbol(old(self).players@.len() as int)
                    &&& seated(*old(self), *final(self), p)
                },
                Err(e) => {
                    &&& e == GameError::IdInUse
                    &&& old(self).players@.len() == 1
                    &&& *final(self) == *old(self)
                },
            },
    {
        let id = fresh_id();
        self.add_player_with_id(player_name, id)
    }

    /// Places the symbol of player `player_id` at (`row`, `col`) when the move
    /// is legal, then settles a win, a draw or the next turn.
    pub fn make_move(&mut self, row: usize, col: usize, player_id: u128) -> (r: Result<(), GameError>)
        requires
            old(self).wf(),
        ensures
            final(self).wf(),
            match move_error(*old(self), row as int, col as int, player_id) {
                Some(e) => r == Err::<(), GameError>(e) && *final(self) == *old(self),
                None => r is Ok && moved(*old(self), *final(self), row as int, col as int),
            },
    {
        if self.game_over {
            return Err(GameError::GameOver);
        }
        if row >= 3 || col >= 3 {
            return Err(GameError::OutOfRange);
        }
        if self.board[row][col] != CellState::Empty {
            return Err(GameError::CellOccupied);
        }
        let i = match find_player(&self.players, player_id) {
            Some(i) => i,
            None => {
                return Err(GameError::PlayerNotFound);
            },
        };
        if self.players[i].symbol != self.current_player {
            assert(!seated_with(self.players@, player_id, self.current_player));
            return Err(GameError::NotYourTurn);
        }
        let s = self.current_player;
        self.board[row][col] = s;
        if check_winner(&self.board) {
            self.winner = Some(s);
            self.game_over = true;
        } else if is_board_full(&self.board) {
            self.game_over = true;
        } else {
            self.current_player = match s {
                CellState::X => CellState::O,
                CellState::O => CellState::X,
                CellState::Empty => CellState::X,
            };
        }
        Ok(())
    }
}

} // verus!
