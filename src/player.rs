use vstd::prelude::*;

verus! {

/// One of the two players of a match.
#[derive(PartialEq, Eq, Structural, Debug, Clone, Copy)]
pub enum Player {
    One,
    Two,
}

impl Player {
    /// The opponent of `self`.
    pub open spec fn spec_other(self) -> Player {
        match self {
            Player::One => Player::Two,
            Player::Two => Player::One,
        }
    }

    /// The player who moves after `self`.
    pub fn other(self) -> (r: Player)
        ensures
            r == self.spec_other(),
            r != self,
    {
        match self {
            Player::One => Player::Two,
            Player::Two => Player::One,
        }
    }
}

} // verus!
