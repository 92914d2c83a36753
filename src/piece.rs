use vstd::prelude::*;

use crate::location::Location;
use crate::player::Player;

verus! {

/// A piece: who owns it and where it stands.
#[derive(PartialEq, Eq, Structural, Debug, Clone, Copy)]
pub struct Piece {
    pub player: Player,
    pub location: Location,
}

impl Piece {
    pub fn new(player: Player, location: Location) -> (r: Piece)
        ensures
            r == (Piece { player, location }),
    {
        Piece { player, location }
    }

    pub fn get_location(&self) -> (r: Location)
        ensures
            r == self.location,
    {
        self.location
    }

    pub fn get_player(&self) -> (r: Player)
        ensures
            r == self.player,
    {
        self.player
    }
}

} // verus!
