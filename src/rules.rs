use vstd::prelude::*;

use crate::game_move::GameMove;
use crate::location::Location;
use crate::piece::Piece;
use crate::player::Player;

verus! {

/// The number of pieces in a match, both players together.
pub const PIECE_COUNT: usize = 18;

/// The number of pieces each player starts with.
pub const PIECES_PER_PLAYER: usize = 9;

/// A player with more pieces than this taken out of play has lost.
pub const MAX_CAPTURED: u8 = 6;

/// Whether some piece of `owner` stands at `loc`.
pub open spec fn holds(ps: Seq<Piece>, owner: Player, loc: Location) -> bool {
    exists|i: int| 0 <= i < ps.len() && #[trigger] ps[i] == (Piece { player: owner, location: loc })
}

/// Whether some piece stands at `loc`.
pub open spec fn occupied(ps: Seq<Piece>, loc: Location) -> bool {
    exists|i: int| 0 <= i < ps.len() && #[trigger] ps[i].location == loc
}

/// The placing phase lasts while some piece is still in hand.
pub open spec fn placing(ps: Seq<Piece>) -> bool {
    occupied(ps, Location::Hand)
}

/// Whether `owner` holds both other intersections of one of the lines
/// through `loc`.
pub open spec fn forms_mill(ps: Seq<Piece>, owner: Player, loc: Location) -> bool {
    exists|k: int|
        0 <= k < loc.spec_rows().len() && holds(ps, owner, #[trigger] loc.spec_rows()[k].0)
            && holds(ps, owner, loc.spec_rows()[k].1)
}

/// Whether `owner` has a piece on the board that is not in a mill.
pub open spec fn has_loose_piece(ps: Seq<Piece>, owner: Player) -> bool {
    exists|i: int|
        0 <= i < ps.len() && (#[trigger] ps[i]).player == owner && ps[i].location.is_board()
            && !forms_mill(ps, owner, ps[i].location)
}

/// Whether `player`, to move next or not, may move a piece from `from` to `to`.
pub open spec fn move_allowed(
    ps: Seq<Piece>,
    next_player: Player,
    player: Player,
    from: Location,
    to: Location,
) -> bool {
    &&& player == next_player
    &&& placing(ps) ==> from is Hand
    &&& to.is_board()
    &&& !occupied(ps, to)
    &&& !placing(ps) ==> Location::spec_next_door(from, to)
}

/// Whether the piece that `player` names for removal may be taken: none at
/// all, or a board intersection that is not in a mill of the opponent unless
/// every piece of the opponent on the board is in one.
pub open spec fn removal_allowed(ps: Seq<Piece>, player: Player, removal: Option<Location>) -> bool {
    match removal {
        None => true,
        Some(loc) => loc.is_board() && (!forms_mill(ps, player.spec_other(), loc)
            || !has_loose_piece(ps, player.spec_other())),
    }
}

/// Whether `i` is the first index of a piece of `owner` at `loc`.
pub open spec fn first_at(ps: Seq<Piece>, owner: Player, loc: Location, i: int) -> bool {
    &&& 0 <= i < ps.len()
    &&& ps[i] == (Piece { player: owner, location: loc })
    &&& forall|j: int| 0 <= j < i ==> #[trigger] ps[j] != (Piece { player: owner, location: loc })
}

/// The pieces after the first piece of `owner` at `from` goes to `to`;
/// unchanged where `owner` has none at `from`.
pub open spec fn relocated(ps: Seq<Piece>, owner: Player, from: Location, to: Location) -> Seq<
    Piece,
> {
    if exists|i: int| first_at(ps, owner, from, i) {
        let i = choose|i: int| first_at(ps, owner, from, i);
        ps.update(i, Piece { player: owner, location: to })
    } else {
        ps
    }
}

/// The pieces after every piece at `loc` that `mover` does not own is taken
/// out of play.
pub open spec fn captured_at(ps: Seq<Piece>, mover: Player, loc: Location) -> Seq<Piece> {
    ps.map_values(
        |p: Piece|
            if p.location == loc && p.player != mover {
                Piece { player: p.player, location: Location::Captured }
            } else {
                p
            },
    )
}

/// The pieces after an accepted move: the piece goes from `from` to `to`,
/// then, where it has formed a mill and a removal was named, the opponent's
/// pieces there are taken out of play.
pub open spec fn after_move(ps: Seq<Piece>, mv: GameMove) -> Seq<Piece> {
    let placed = relocated(ps, mv.player, mv.from, mv.to);
    if forms_mill(placed, mv.player, mv.to) && mv.remove is Some {
        captured_at(placed, mv.player, mv.remove->0)
    } else {
        placed
    }
}

/// How many pieces of `owner` are out of play.
pub open spec fn captured_count(ps: Seq<Piece>, owner: Player) -> nat
    decreases ps.len(),
{
    if ps.len() == 0 {
        0
    } else {
        captured_count(ps.drop_last(), owner) + if ps.last() == (Piece {
            player: owner,
            location: Location::Captured,
        }) {
            1nat
        } else {
            0nat
        }
    }
}

/// A first index is the only one.
pub proof fn lemma_first_at_unique(ps: Seq<Piece>, owner: Player, loc: Location, i: int, j: int)
    requires
        first_at(ps, owner, loc, i),
        first_at(ps, owner, loc, j),
    ensures
        i == j,
{
    if i < j {
        assert(ps[i] == (Piece { player: owner, location: loc }));
    } else if j < i {
        assert(ps[j] == (Piece { player: owner, location: loc }));
    }
}

/// Moving a piece keeps the number of pieces.
pub proof fn lemma_relocated_len(ps: Seq<Piece>, owner: Player, from: Location, to: Location)
    ensures
        relocated(ps, owner, from, to).len() == ps.len(),
{
}

/// No count of a player's taken pieces exceeds the number of pieces.
pub proof fn lemma_captured_count_le(ps: Seq<Piece>, owner: Player)
    ensures
        captured_count(ps, owner) <= ps.len(),
    decreases ps.len(),
{
    if ps.len() > 0 {
        lemma_captured_count_le(ps.drop_last(), owner);
    }
}

} // verus!
