use vstd::prelude::*;

use crate::game_move::GameMove;
use crate::location::Location;
use crate::piece::Piece;
use crate::player::Player;
use crate::rules::{
    after_move, first_at, forms_mill, lemma_relocated_len, occupied, relocated, PIECE_COUNT,
};
use crate::{accepts, fresh, step, GameState};

verus! {

/// The game after each move of `moves` is submitted in turn, from `g`.
pub open spec fn play(g: GameState, moves: Seq<GameMove>) -> GameState
    decreases moves.len(),
{
    if moves.len() == 0 {
        g
    } else {
        step(play(g, moves.drop_last()), moves.last())
    }
}

/// How many of `moves`, submitted in turn from `g`, are accepted.
pub open spec fn accepted_count(g: GameState, moves: Seq<GameMove>) -> nat
    decreases moves.len(),
{
    if moves.len() == 0 {
        0
    } else {
        accepted_count(g, moves.drop_last()) + if accepts(play(g, moves.drop_last()), moves.last()) {
            1nat
        } else {
            0nat
        }
    }
}

/// A game holds eighteen pieces whatever moves are submitted to it.
pub proof fn lemma_piece_count_kept(g: GameState, moves: Seq<GameMove>)
    requires
        g.pieces.len() == PIECE_COUNT,
    ensures
        play(g, moves).pieces.len() == PIECE_COUNT,
    decreases moves.len(),
{
    if moves.len() > 0 {
        lemma_piece_count_kept(g, moves.drop_last());
        let h = play(g, moves.drop_last());
        let mv = moves.last();
        lemma_relocated_len(h.pieces, mv.player, mv.from, mv.to);
    }
}

/// Every game reached from a new one holds eighteen pieces.
pub proof fn lemma_piece_count(moves: Seq<GameMove>)
    ensures
        play(fresh(), moves).pieces.len() == PIECE_COUNT,
{
    lemma_piece_count_kept(fresh(), moves);
}

/// From a new game, `One` is to move after an even number of accepted moves
/// and `Two` after an odd number.
pub proof fn lemma_players_alternate(moves: Seq<GameMove>)
    ensures
        play(fresh(), moves).next_player == if accepted_count(fresh(), moves) % 2 == 0 {
            Player::One
        } else {
            Player::Two
        },
    decreases moves.len(),
{
    if moves.len() > 0 {
        lemma_players_alternate(moves.drop_last());
    }
}

/// A move that is not accepted leaves the turn counter, the player to move
/// and every piece as they were.
pub proof fn lemma_rejection_changes_nothing(g: GameState, mv: GameMove)
    requires
        !accepts(g, mv),
    ensures
        step(g, mv) == g,
{
}

/// A piece is taken out of play only where the moved piece has formed a
/// mill at its destination.
pub proof fn lemma_capture_needs_mill(g: GameState, mv: GameMove)
    ensures
        after_move(g.pieces, mv) != relocated(g.pieces, mv.player, mv.from, mv.to) ==> forms_mill(
            relocated(g.pieces, mv.player, mv.from, mv.to),
            mv.player,
            mv.to,
        ),
{
}

/// Whether no two pieces share an intersection of the board.
pub open spec fn board_unique(ps: Seq<Piece>) -> bool {
    forall|i: int, j: int|
        0 <= i < ps.len() && 0 <= j < ps.len() && i != j && (#[trigger] ps[i]).location.is_board()
            ==> ps[i].location != (#[trigger] ps[j]).location
}

/// Moving a piece to a free place, or off the board, keeps the board
/// intersections holding one piece at most.
proof fn lemma_relocated_unique(ps: Seq<Piece>, owner: Player, from: Location, to: Location)
    requires
        board_unique(ps),
        !to.is_board() || !occupied(ps, to),
    ensures
        board_unique(relocated(ps, owner, from, to)),
{
    if exists|i: int| first_at(ps, owner, from, i) {
        let i = choose|i: int| first_at(ps, owner, from, i);
        let qs = relocated(ps, owner, from, to);
        assert forall|a: int, b: int|
            0 <= a < qs.len() && 0 <= b < qs.len() && a != b && (#[trigger] qs[a]).location.is_board()
                implies qs[a].location != (#[trigger] qs[b]).location by {
            if a == i {
                assert(ps[b].location != to);
            } else if b == i {
                assert(ps[a].location != to);
            } else {
                assert(ps[a] == qs[a] && ps[b] == qs[b]);
            }
        }
    }
}

/// An accepted move keeps the board intersections holding one piece at most.
pub proof fn lemma_step_board_unique(g: GameState, mv: GameMove)
    requires
        board_unique(g.pieces),
    ensures
        board_unique(step(g, mv).pieces),
{
    if accepts(g, mv) {
        lemma_relocated_unique(g.pieces, mv.player, mv.from, mv.to);
    }
}

/// In every game reached from a new one, no two pieces share an
/// intersection of the board.
pub proof fn lemma_board_unique(moves: Seq<GameMove>)
    ensures
        board_unique(play(fresh(), moves).pieces),
    decreases moves.len(),
{
    if moves.len() > 0 {
        lemma_board_unique(moves.drop_last());
        lemma_step_board_unique(play(fresh(), moves.drop_last()), moves.last());
    }
}

/// A piece out of play stays out of play, whatever move is submitted.
pub proof fn lemma_captured_stay(g: GameState, mv: GameMove, i: int)
    requires
        0 <= i < g.pieces.len(),
        g.pieces[i].location is Captured,
    ensures
        i < step(g, mv).pieces.len(),
        step(g, mv).pieces[i].location is Captured,
{
    lemma_relocated_len(g.pieces, mv.player, mv.from, mv.to);
    if accepts(g, mv) {
        let placed = relocated(g.pieces, mv.player, mv.from, mv.to);
        if exists|j: int| first_at(g.pieces, mv.player, mv.from, j) {
            let j = choose|j: int| first_at(g.pieces, mv.player, mv.from, j);
            if j == i {
                assert(!(mv.from is Hand));
                assert(!Location::spec_next_door(mv.from, mv.to));
            }
        }
        assert(placed[i].location is Captured);
    }
}

} // verus!
