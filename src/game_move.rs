use vstd::prelude::*;

use crate::location::Location;
use crate::player::Player;

verus! {

/// A move proposed by a player: a piece of `player` goes from `from` (`Hand`
/// while placing) to `to`, and, where that forms a mill, the opponent's piece
/// at `remove` is taken.
#[derive(PartialEq, Eq, Structural, Debug, Clone, Copy)]
pub struct GameMove {
    pub player: Player,
    pub from: Location,
    pub to: Location,
    pub remove: Option<Location>,
}

impl GameMove {
    pub fn new(player: Player, from: Location, to: Location, remove: Option<Location>) -> (r:
        GameMove)
        ensures
            r == (GameMove { player, from, to, remove }),
    {
        GameMove { player, from, to, remove }
    }

    pub fn get_player(&self) -> (r: Player)
        ensures
            r == self.player,
    {
        self.player
    }

    pub fn get_from(&self) -> (r: Location)
        ensures
            r == self.from,
    {
        self.from
    }

    pub fn get_to(&self) -> (r: Location)
        ensures
            r == self.to,
    {
        self.to
    }

    pub fn get_remove(&self) -> (r: Option<Location>)
        ensures
            r == self.remove,
    {
        self.remove
    }
}

} // verus!
