use vstd::prelude::*;

pub mod game_move;
mod json;
pub mod location;
pub mod piece;
pub mod player;
pub mod laws;
pub mod rules;
pub mod snapshot;

pub use game_move::GameMove;
pub use location::Location;
pub use piece::Piece;
pub use player::Player;
pub use snapshot::{LoadError, PieceRecord, Snapshot};

use rules::{
    after_move, captured_at, captured_count, first_at, forms_mill, has_loose_piece, holds, move_allowed,
    occupied, placing, relocated, removal_allowed, MAX_CAPTURED, PIECES_PER_PLAYER, PIECE_COUNT,
};

verus! {

/// How a match stands.
#[derive(PartialEq, Eq, Structural, Debug, Clone, Copy)]
pub enum GameStatus {
    Playing,
    Win(Player),
    Draw,
}

/// What a game is: its pieces in order, the number of accepted moves (kept
/// modulo 256) and the player to move.
pub struct GameState {
    pub pieces: Seq<Piece>,
    pub turn: u8,
    pub next_player: Player,
}

/// A match of Nine Men's Morris.
#[derive(PartialEq, Eq, Debug)]
pub struct Game {
    pieces: Vec<Piece>,
    turn: u8,
    next_player: Player,
}

/// The status that the pieces give: a player with more than six pieces out of
/// play has lost.
pub open spec fn spec_status(ps: Seq<Piece>) -> GameStatus {
    if captured_count(ps, Player::One) > MAX_CAPTURED {
        GameStatus::Win(Player::Two)
    } else if captured_count(ps, Player::Two) > MAX_CAPTURED {
        GameStatus::Win(Player::One)
    } else {
        GameStatus::Playing
    }
}

/// The turn counter after one more accepted move: it counts up by one, and
/// as it is held in a byte, 255 is followed by 0.
pub open spec fn next_turn(t: u8) -> u8 {
    if t == 255 {
        0
    } else {
        (t + 1) as u8
    }
}

/// The pieces of a new game: nine of `One`, then nine of `Two`, all in hand.
pub open spec fn fresh_pieces() -> Seq<Piece> {
    Seq::new(
        PIECE_COUNT as nat,
        |i: int|
            Piece {
                player: if i < PIECES_PER_PLAYER {
                    Player::One
                } else {
                    Player::Two
                },
                location: Location::Hand,
            },
    )
}

/// A new game.
pub open spec fn fresh() -> GameState {
    GameState { pieces: fresh_pieces(), turn: 0, next_player: Player::One }
}

/// Whether `mv` is accepted in `g`: the match is still on, the move is legal
/// and so is the removal it names.
pub open spec fn accepts(g: GameState, mv: GameMove) -> bool {
    &&& spec_status(g.pieces) is Playing
    &&& move_allowed(g.pieces, g.next_player, mv.player, mv.from, mv.to)
    &&& removal_allowed(g.pieces, mv.player, mv.remove)
}

/// The game after `mv` is submitted in `g`: where accepted, the pieces
/// change as the move says, the turn counter goes up and the other player
/// is to move; else nothing changes.
pub open spec fn step(g: GameState, mv: GameMove) -> GameState {
    if accepts(g, mv) {
        GameState {
            pieces: after_move(g.pieces, mv),
            turn: next_turn(g.turn),
            next_player: g.next_player.spec_other(),
        }
    } else {
        g
    }
}

impl View for Game {
    type V = GameState;

    closed spec fn view(&self) -> GameState {
        GameState { pieces: self.pieces@, turn: self.turn, next_player: self.next_player }
    }
}

impl Game {
    /// A game holds its eighteen pieces.
    pub open spec fn wf(&self) -> bool {
        self@.pieces.len() == PIECE_COUNT
    }

    pub fn new() -> (r: Game)
        ensures
            r@ == fresh(),
            r.wf(),
    {
        let r = Game { pieces: Self::get_new_pieces(), turn: 0, next_player: Player::One };
        r
    }

    fn get_new_pieces() -> (r: Vec<Piece>)
        ensures
            r@ == fresh_pieces(),
    {
        let mut r: Vec<Piece> = Vec::new();
        let mut i: usize = 0;
        while i < PIECE_COUNT
            invariant
                i <= PIECE_COUNT,
                r@ =~= fresh_pieces().subrange(0, i as int),
            decreases PIECE_COUNT - i,
        {
            let player = if i < PIECES_PER_PLAYER {
                Player::One
            } else {
                Player::Two
            };
            r.push(Piece::new(player, Location::Hand));
            i += 1;
        }
        assert(r@ =~= fresh_pieces());
        r
    }

    /// A game made of the given parts.
    pub(crate) fn from_parts(pieces: Vec<Piece>, turn: u8, next_player: Player) -> (r: Game)
        ensures
            r@ == (GameState { pieces: pieces@, turn, next_player }),
    {
        Game { pieces, turn, next_player }
    }

    pub fn get_turn(&self) -> (r: u8)
        ensures
            r == self@.turn,
    {
        self.turn
    }

    pub fn get_next_player(&self) -> (r: Player)
        ensures
            r == self@.next_player,
    {
        self.next_player
    }

    pub fn get_pieces(&self) -> (r: Vec<Piece>)
        ensures
            r@ == self@.pieces,
    {
        let mut r: Vec<Piece> = Vec::new();
        let mut i: usize = 0;
        while i < self.pieces.len()
            invariant
                i <= self.pieces@.len(),
                r@ =~= self.pieces@.subrange(0, i as int),
            decreases self.pieces@.len() - i,
        {
            r.push(self.pieces[i]);
            i += 1;
        }
        assert(r@ =~= self.pieces@);
        r
    }

    pub fn get_status(&self) -> (r: GameStatus)
        ensures
            r == spec_status(self@.pieces),
    {
        if self.get_player_captured_count(Player::One) > MAX_CAPTURED as usize {
            return GameStatus::Win(Player::Two);
        }
        if self.get_player_captured_count(Player::Two) > MAX_CAPTURED as usize {
            return GameStatus::Win(Player::One);
        }
        GameStatus::Playing
    }

    fn get_player_captured_count(&self, player: Player) -> (r: usize)
        ensures
            r == captured_count(self@.pieces, player),
    {
        let ghost ps = self.pieces@;
        let mut count: usize = 0;
        let mut i: usize = 0;
        while i < self.pieces.len()
            invariant
                ps == self.pieces@,
                i <= ps.len(),
                count == captured_count(ps.subrange(0, i as int), player),
            decreases ps.len() - i,
        {
            proof {
                assert(ps.subrange(0, i + 1).drop_last() =~= ps.subrange(0, i as int));
                rules::lemma_captured_count_le(ps.subrange(0, i as int), player);
            }
            if self.pieces[i].location == Location::Captured && self.pieces[i].player == player {
                count += 1;
            }
            i += 1;
        }
        assert(ps.subrange(0, ps.len() as int) =~= ps);
        count
    }

    fn is_in_placement_phase(&self) -> (r: bool)
        ensures
            r == placing(self@.pieces),
    {
        self.is_location_occupied(Location::Hand)
    }

    fn is_location_occupied(&self, location: Location) -> (r: bool)
        ensures
            r == occupied(self@.pieces, location),
    {
        let mut i: usize = 0;
        while i < self.pieces.len()
            invariant
                i <= self.pieces@.len(),
                forall|j: int| 0 <= j < i ==> #[trigger] self.pieces@[j].location != location,
            decreases self.pieces@.len() - i,
        {
            if self.pieces[i].location == location {
                return true;
            }
            i += 1;
        }
        false
    }

    fn does_piece_exist(&self, location: Location, player: Player) -> (r: bool)
        ensures
            r == holds(self@.pieces, player, location),
    {
        let mut i: usize = 0;
        while i < self.pieces.len()
            invariant
                i <= self.pieces@.len(),
                forall|j: int|
                    0 <= j < i ==> #[trigger] self.pieces@[j] != (Piece { player, location }),
            decreases self.pieces@.len() - i,
        {
            if self.pieces[i].location == location && self.pieces[i].player == player {
                return true;
            }
            i += 1;
        }
        false
    }

    fn is_three_in_a_row(&self, player: Player, location: Location) -> (r: bool)
        requires
            location.is_board(),
        ensures
            r == forms_mill(self@.pieces, player, location),
    {
        let rows = match Location::get_rows(location) {
            Ok(rows) => rows,
            Err(()) => {
                return false;
            },
        };
        let mut k: usize = 0;
        while k < rows.len()
            invariant
                rows@ == location.spec_rows(),
                k <= rows@.len(),
                forall|j: int|
                    0 <= j < k ==> !(holds(self@.pieces, player, #[trigger] rows@[j].0) && holds(
                        self@.pieces,
                        player,
                        rows@[j].1,
                    )),
            decreases rows@.len() - k,
        {
            let (a, b) = rows[k];
            if self.does_piece_exist(a, player) && self.does_piece_exist(b, player) {
                return true;
            }
            k += 1;
        }
        false
    }

    fn is_next_door(&self, from: Location, to: Location) -> (r: bool)
        requires
            to.is_board(),
        ensures
            r == Location::spec_next_door(from, to),
    {
        let rows = match Location::get_rows(to) {
            Ok(rows) => rows,
            Err(()) => {
                return false;
            },
        };
        let mut k: usize = 0;
        while k < rows.len()
            invariant
                rows@ == to.spec_rows(),
                k <= rows@.len(),
                forall|j: int|
                    0 <= j < k ==> !((#[trigger] rows@[j]).0 == from || rows@[j].1 == from),
            decreases rows@.len() - k,
        {
            let (a, b) = rows[k];
            if a == from || b == from {
                assert(to.spec_rows()[k as int].0 == from || to.spec_rows()[k as int].1 == from);
                return true;
            }
            k += 1;
        }
        assert forall|j: int| 0 <= j < to.spec_rows().len() implies !((
        #[trigger] to.spec_rows()[j]).0 == from || to.spec_rows()[j].1 == from) by {
            assert(rows@[j] == to.spec_rows()[j]);
        }
        false
    }

    fn does_player_have_non_mill_pieces(&self, player: Player) -> (r: bool)
        ensures
            r == has_loose_piece(self@.pieces, player),
    {
        let mut i: usize = 0;
        while i < self.pieces.len()
            invariant
                i <= self.pieces@.len(),
                forall|j: int|
                    0 <= j < i ==> !((#[trigger] self.pieces@[j]).player == player
                        && self.pieces@[j].location.is_board() && !forms_mill(
                        self@.pieces,
                        player,
                        self.pieces@[j].location,
                    )),
            decreases self.pieces@.len() - i,
        {
            let piece = self.pieces[i];
            if piece.player == player && piece.location != Location::Captured && piece.location
                != Location::Hand && !self.is_three_in_a_row(player, piece.location) {
                return true;
            }
            i += 1;
        }
        false
    }

    fn is_valid_move(&self, player: Player, from: Location, to: Location) -> (r: bool)
        ensures
            r == move_allowed(self@.pieces, self@.next_player, player, from, to),
    {
        if player != self.next_player {
            return false;
        }
        let placing = self.is_in_placement_phase();
        if from != Location::Hand && placing {
            return false;
        }
        if to == Location::Hand || to == Location::Captured {
            return false;
        }
        if self.is_location_occupied(to) {
            return false;
        }
        if !placing && !self.is_next_door(from, to) {
            return false;
        }
        true
    }

    fn is_valid_removal(&self, player: Player, removal: Option<Location>) -> (r: bool)
        ensures
            r == removal_allowed(self@.pieces, player, removal),
    {
        match removal {
            None => true,
            Some(location) => {
                if location == Location::Hand || location == Location::Captured {
                    return false;
                }
                let other_player = player.other();
                !self.is_three_in_a_row(other_player, location)
                    || !self.does_player_have_non_mill_pieces(other_player)
            },
        }
    }

    /// The index of the first piece of `owner` at `location`.
    fn find_piece(&self, owner: Player, location: Location) -> (r: Option<usize>)
        ensures
            r matches Some(i) ==> first_at(self@.pieces, owner, location, i as int),
            r is None ==> forall|i: int|
                0 <= i < self@.pieces.len() ==> #[trigger] self@.pieces[i] != (Piece {
                    player: owner,
                    location,
                }),
    {
        let mut i: usize = 0;
        while i < self.pieces.len()
            invariant
                i <= self.pieces@.len(),
                forall|j: int|
                    0 <= j < i ==> #[trigger] self.pieces@[j] != (Piece {
                        player: owner,
                        location,
                    }),
            decreases self.pieces@.len() - i,
        {
            if self.pieces[i].location == location && self.pieces[i].player == owner {
                return Some(i);
            }
            i += 1;
        }
        None
    }

    /// Moves the first piece of `owner` at `from` to `to`, if there is one.
    fn relocate(&mut self, owner: Player, from: Location, to: Location)
        ensures
            final(self)@ == (GameState {
                pieces: relocated(old(self)@.pieces, owner, from, to),
                ..old(self)@
            }),
    {
        match self.find_piece(owner, from) {
            Some(i) => {
                proof {
                    let j = choose|j: int| first_at(old(self)@.pieces, owner, from, j);
                    rules::lemma_first_at_unique(old(self)@.pieces, owner, from, i as int, j);
                }
                self.pieces.set(i, Piece::new(owner, to));
            },
            None => {},
        }
    }

    /// Takes out of play every piece at `location` that `mover` does not own.
    fn capture(&mut self, mover: Player, location: Location)
        ensures
            final(self)@ == (GameState {
                pieces: captured_at(old(self)@.pieces, mover, location),
                ..old(self)@
            }),
    {
        let ghost ps = self.pieces@;
        let mut i: usize = 0;
        while i < self.pieces.len()
            invariant
                self.pieces@.len() == ps.len(),
                i <= ps.len(),
                self.turn == old(self).turn,
                self.next_player == old(self).next_player,
                ps == old(self).pieces@,
                forall|k: int| 0 <= k < i ==> #[trigger] self.pieces@[k] == captured_at(ps, mover, location)[k],
                forall|k: int| i <= k < ps.len() ==> #[trigger] self.pieces@[k] == ps[k],
            decreases ps.len() - i,
        {
            let piece = self.pieces[i];
            if piece.location == location && piece.player != mover {
                self.pieces.set(i, Piece::new(piece.player, Location::Captured));
            }
            i += 1;
        }
        assert(self.pieces@ =~= captured_at(ps, mover, location));
    }

    /// Plays `mv` if it is accepted; returns whether it was. A rejected move
    /// changes nothing.
    pub fn submit(&mut self, mv: GameMove) -> (r: bool)
        ensures
            r == accepts(old(self)@, mv),
            final(self)@ == step(old(self)@, mv),
    {
        if self.get_status() != GameStatus::Playing {
            return false;
        }
        let player = mv.get_player();
        let from = mv.get_from();
        let to = mv.get_to();
        let remove = mv.get_remove();
        if !self.is_valid_move(player, from, to) {
            return false;
        }
        if !self.is_valid_removal(player, remove) {
            return false;
        }
        self.relocate(player, from, to);
        if self.is_three_in_a_row(player, to) {
            match remove {
                Some(location) => self.capture(player, location),
                None => {},
            }
        }
        self.turn = if self.turn == 255 {
            0
        } else {
            self.turn + 1
        };
        self.next_player = self.next_player.other();
        true
    }
}

} // verus!
