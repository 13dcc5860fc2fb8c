use vstd::prelude::*;

use crate::error::GameError;
use crate::game::{
    board_full, cell, has_winning_line, in_board, line_alike, on_line, other_symbol, CellState,
    GameState,
};
use crate::registry::{move_outcome, open_infos, GameManager};

verus! {

/// A move never changes a cell that already holds a symbol, whether it is
/// played or refused.
pub proof fn lemma_move_keeps_placed_symbols(
    g: GameState,
    h: GameState,
    row: int,
    col: int,
    player_id: u128,
    r: Result<(), GameError>,
)
    requires
        move_outcome(g, h, row, col, player_id, r),
    ensures
        forall|rr: int, cc: int|
            in_board(rr, cc) && cell(g.board, rr, cc) != CellState::Empty ==> #[trigger] cell(
                h.board,
                rr,
                cc,
            ) == cell(g.board, rr, cc),
{
}

/// Along any run of move requests on one game, played or refused, a cell
/// that holds a symbol in the first state holds the same symbol in every
/// later state. `states[i + 1]` is what `moves[i]` (row, column, acting
/// player, result) left of `states[i]`.
pub proof fn lemma_moves_never_overwrite(
    states: Seq<GameState>,
    moves: Seq<(int, int, u128, Result<(), GameError>)>,
)
    requires
        states.len() == moves.len() + 1,
        states[0].wf(),
        forall|i: int|
            0 <= i < moves.len() ==> move_outcome(
                #[trigger] states[i],
                states[i + 1],
                moves[i].0,
                moves[i].1,
                moves[i].2,
                moves[i].3,
            ),
    ensures
        forall|i: int, rr: int, cc: int|
            0 <= i < states.len() && in_board(rr, cc) && cell(states[0].board, rr, cc)
                != CellState::Empty ==> #[trigger] cell(states[i].board, rr, cc) == cell(
                states[0].board,
                rr,
                cc,
            ),
    decreases moves.len(),
{
    if moves.len() > 0 {
        let n = moves.len() - 1;
        lemma_moves_never_overwrite(states.drop_last(), moves.drop_last());
        assert(move_outcome(states[n], states[n + 1], moves[n].0, moves[n].1, moves[n].2, moves[n].3));
        assert forall|i: int, rr: int, cc: int|
            0 <= i < states.len() && in_board(rr, cc) && cell(states[0].board, rr, cc)
                != CellState::Empty implies #[trigger] cell(states[i].board, rr, cc) == cell(
                states[0].board,
                rr,
                cc,
            ) by {
            if i == states.len() - 1 {
                assert(cell(states.drop_last()[n].board, rr, cc) == cell(states[0].board, rr, cc));
            } else {
                assert(cell(states.drop_last()[i].board, rr, cc) == cell(states[0].board, rr, cc));
            }
        }
    }
}

/// After a played move, every row, column or diagonal of three alike makes
/// the game over, with the symbol of that line as its winner.
pub proof fn lemma_completed_line_decides_winner(
    g: GameState,
    h: GameState,
    row: int,
    col: int,
    player_id: u128,
    r: Result<(), GameError>,
)
    requires
        g.wf(),
        move_outcome(g, h, row, col, player_id, r),
        r is Ok,
    ensures
        forall|k: int, rr: int, cc: int|
            0 <= k < 8 && #[trigger] line_alike(h.board, k) && #[trigger] on_line(k, rr, cc)
                ==> h.game_over && h.winner == Some(cell(h.board, rr, cc)),
{
    let s = g.current_player;
    assert forall|k: int, rr: int, cc: int|
        0 <= k < 8 && #[trigger] line_alike(h.board, k) && #[trigger] on_line(k, rr, cc) implies h.game_over
        && h.winner == Some(cell(h.board, rr, cc)) by {
        assert(has_winning_line(h.board));
        if !on_line(k, row, col) {
            assert(line_alike(g.board, k)) by {
                if k < 3 {
                    assert(cell(h.board, k, 0) == cell(g.board, k, 0));
                    assert(cell(h.board, k, 1) == cell(g.board, k, 1));
                    assert(cell(h.board, k, 2) == cell(g.board, k, 2));
                } else if k < 6 {
                    assert(cell(h.board, 0, k - 3) == cell(g.board, 0, k - 3));
                    assert(cell(h.board, 1, k - 3) == cell(g.board, 1, k - 3));
                    assert(cell(h.board, 2, k - 3) == cell(g.board, 2, k - 3));
                } else if k == 6 {
                    assert(cell(h.board, 0, 0) == cell(g.board, 0, 0));
                    assert(cell(h.board, 1, 1) == cell(g.board, 1, 1));
                    assert(cell(h.board, 2, 2) == cell(g.board, 2, 2));
                } else {
                    assert(cell(h.board, 0, 2) == cell(g.board, 0, 2));
                    assert(cell(h.board, 1, 1) == cell(g.board, 1, 1));
                    assert(cell(h.board, 2, 0) == cell(g.board, 2, 0));
                }
            }
            assert(has_winning_line(g.board));
        } else {
            assert(cell(h.board, row, col) == s);
            if k < 3 {
                assert(cell(h.board, k, 0) == cell(h.board, k, 1));
            } else if k < 6 {
                assert(cell(h.board, 0, k - 3) == cell(h.board, 1, k - 3));
            }
        }
    }
}

/// A game whose cells are all filled without a completed line is over, and
/// has no winner.
pub proof fn lemma_full_board_without_line_is_draw(g: GameState)
    requires
        g.wf(),
        board_full(g.board),
        !has_winning_line(g.board),
    ensures
        g.game_over,
        g.winner is None,
{
}

/// The turn passes from X to O or from O to X after each played move that
/// does not end the game, and stays where it was after a refused move.
pub proof fn lemma_turn_alternates(
    g: GameState,
    h: GameState,
    row: int,
    col: int,
    player_id: u128,
    r: Result<(), GameError>,
)
    requires
        g.wf(),
        move_outcome(g, h, row, col, player_id, r),
    ensures
        r is Ok && !h.game_over ==> {
            &&& h.current_player == other_symbol(g.current_player)
            &&& g.current_player == CellState::X ==> h.current_player == CellState::O
            &&& g.current_player == CellState::O ==> h.current_player == CellState::X
        },
        r is Err ==> h.current_player == g.current_player,
{
}

/// A move on a running game to a cell that already holds a symbol is refused
/// as occupied, and leaves the board, the turn and the end flag as they were.
pub proof fn lemma_occupied_cell_refused(
    g: GameState,
    h: GameState,
    row: int,
    col: int,
    player_id: u128,
    r: Result<(), GameError>,
)
    requires
        g.wf(),
        !g.game_over,
        in_board(row, col),
        cell(g.board, row, col) != CellState::Empty,
        move_outcome(g, h, row, col, player_id, r),
    ensures
        r == Err::<(), GameError>(GameError::CellOccupied),
        h.board == g.board,
        h.current_player == g.current_player,
        h.game_over == g.game_over,
{
}

/// The list of open games never holds a full game.
pub proof fn lemma_listing_has_no_full_game(m: GameManager)
    ensures
        forall|k: int| 0 <= k < open_infos(m@).len() ==> !(#[trigger] open_infos(m@)[k]).is_full,
{
    lemma_open_infos_not_full(m@);
}

proof fn lemma_open_infos_not_full(games: Seq<GameState>)
    ensures
        forall|k: int| 0 <= k < open_infos(games).len() ==> !(#[trigger] open_infos(games)[k]).is_full,
    decreases games.len(),
{
    if games.len() > 0 {
        let rest = games.drop_last();
        lemma_open_infos_not_full(rest);
        if !games.last().is_full {
            assert forall|k: int| 0 <= k < open_infos(games).len() implies !(#[trigger] open_infos(
                games,
            )[k]).is_full by {
                if k < open_infos(rest).len() {
                    assert(open_infos(games)[k] == open_infos(rest)[k]);
                }
            }
        }
    }
}

} // verus!
