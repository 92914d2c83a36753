use vstd::prelude::*;
use vstd::string::StrSliceExecFns;

verus! {

/// A place a piece can be: one of the 24 intersections of the board, or one
/// of the two places off the board (not yet placed, or taken out of play).
#[derive(PartialEq, Eq, Structural, Debug, Clone, Copy)]
pub enum Location {
    Hand,
    A7,
    A4,
    A1,
    B6,
    B4,
    B2,
    C5,
    C4,
    C3,
    D7,
    D6,
    D5,
    D3,
    D2,
    D1,
    E5,
    E4,
    E3,
    F6,
    F4,
    F2,
    G7,
    G4,
    G1,
    Captured,
}

/// The number of places a piece can be, board and off-board together.
pub const LOCATION_COUNT: usize = 26;

impl Location {
    /// Whether `self` is an intersection of the board.
    pub open spec fn is_board(self) -> bool {
        !(self is Hand) && !(self is Captured)
    }

    /// The name under which `self` is written in a snapshot.
    pub open spec fn spec_name(self) -> Seq<char> {
        match self {
            Location::Hand => "Hand"@,
            Location::A7 => "A7"@,
            Location::A4 => "A4"@,
            Location::A1 => "A1"@,
            Location::B6 => "B6"@,
            Location::B4 => "B4"@,
            Location::B2 => "B2"@,
            Location::C5 => "C5"@,
            Location::C4 => "C4"@,
            Location::C3 => "C3"@,
            Location::D7 => "D7"@,
            Location::D6 => "D6"@,
            Location::D5 => "D5"@,
            Location::D3 => "D3"@,
            Location::D2 => "D2"@,
            Location::D1 => "D1"@,
            Location::E5 => "E5"@,
            Location::E4 => "E4"@,
            Location::E3 => "E3"@,
            Location::F6 => "F6"@,
            Location::F4 => "F4"@,
            Location::F2 => "F2"@,
            Location::G7 => "G7"@,
            Location::G4 => "G4"@,
            Location::G1 => "G1"@,
            Location::Captured => "Captured"@,
        }
    }

    /// The two lines of three that pass through `self`, each given by the
    /// other two intersections on it; empty off the board.
    pub open spec fn spec_rows(self) -> Seq<(Location, Location)> {
        match self {
            Location::A7 => seq![(Location::A1, Location::A4), (Location::D7, Location::G7)],
            Location::A4 => seq![(Location::A7, Location::A1), (Location::B4, Location::C4)],
            Location::A1 => seq![(Location::A7, Location::A4), (Location::D1, Location::G1)],
            Location::B6 => seq![(Location::B4, Location::B2), (Location::D6, Location::F6)],
            Location::B4 => seq![(Location::B2, Location::B6), (Location::A4, Location::C4)],
            Location::B2 => seq![(Location::B6, Location::B4), (Location::D2, Location::F2)],
            Location::C5 => seq![(Location::C4, Location::C3), (Location::D5, Location::E5)],
            Location::C4 => seq![(Location::C3, Location::C5), (Location::A4, Location::B4)],
            Location::C3 => seq![(Location::C4, Location::C5), (Location::D3, Location::E3)],
            Location::D7 => seq![(Location::D5, Location::D6), (Location::A7, Location::G7)],
            Location::D6 => seq![(Location::D5, Location::D7), (Location::B6, Location::F6)],
            Location::D5 => seq![(Location::D6, Location::D7), (Location::C5, Location::E5)],
            Location::D3 => seq![(Location::D2, Location::D1), (Location::C3, Location::E3)],
            Location::D2 => seq![(Location::D1, Location::D3), (Location::B2, Location::F2)],
            Location::D1 => seq![(Location::D2, Location::D3), (Location::A1, Location::G1)],
            Location::E5 => seq![(Location::E4, Location::E3), (Location::C5, Location::D5)],
            Location::E4 => seq![(Location::E3, Location::E5), (Location::F4, Location::G4)],
            Location::E3 => seq![(Location::E4, Location::E5), (Location::C3, Location::D3)],
            Location::F6 => seq![(Location::F2, Location::F4), (Location::D6, Location::B6)],
            Location::F4 => seq![(Location::F2, Location::F6), (Location::E4, Location::G4)],
            Location::F2 => seq![(Location::F6, Location::F4), (Location::D2, Location::B2)],
            Location::G7 => seq![(Location::G4, Location::G1), (Location::D7, Location::A7)],
            Location::G4 => seq![(Location::G1, Location::G7), (Location::E4, Location::F4)],
            Location::G1 => seq![(Location::G4, Location::G7), (Location::D1, Location::A1)],
            Location::Hand | Location::Captured => seq![],
        }
    }

    /// Whether a piece at `from` can step to `to`: `from` lies on one of the
    /// lines through `to`.
    pub open spec fn spec_next_door(from: Location, to: Location) -> bool {
        exists|k: int|
            0 <= k < to.spec_rows().len() && ((#[trigger] to.spec_rows()[k]).0 == from
                || to.spec_rows()[k].1 == from)
    }

    /// The place at position `i` of the declaration order.
    pub open spec fn spec_nth(i: int) -> Location {
        if i == 0 {
            Location::Hand
        } else if i == 1 {
            Location::A7
        } else if i == 2 {
            Location::A4
        } else if i == 3 {
            Location::A1
        } else if i == 4 {
            Location::B6
        } else if i == 5 {
            Location::B4
        } else if i == 6 {
            Location::B2
        } else if i == 7 {
            Location::C5
        } else if i == 8 {
            Location::C4
        } else if i == 9 {
            Location::C3
        } else if i == 10 {
            Location::D7
        } else if i == 11 {
            Location::D6
        } else if i == 12 {
            Location::D5
        } else if i == 13 {
            Location::D3
        } else if i == 14 {
            Location::D2
        } else if i == 15 {
            Location::D1
        } else if i == 16 {
            Location::E5
        } else if i == 17 {
            Location::E4
        } else if i == 18 {
            Location::E3
        } else if i == 19 {
            Location::F6
        } else if i == 20 {
            Location::F4
        } else if i == 21 {
            Location::F2
        } else if i == 22 {
            Location::G7
        } else if i == 23 {
            Location::G4
        } else if i == 24 {
            Location::G1
        } else {
            Location::Captured
        }
    }

    /// The place at position `i` of the declaration order.
    pub fn nth(i: usize) -> (r: Location)
        requires
            i < LOCATION_COUNT,
        ensures
            r == Location::spec_nth(i as int),
    {
        if i == 0 {
            Location::Hand
        } else if i == 1 {
            Location::A7
        } else if i == 2 {
            Location::A4
        } else if i == 3 {
            Location::A1
        } else if i == 4 {
            Location::B6
        } else if i == 5 {
            Location::B4
        } else if i == 6 {
            Location::B2
        } else if i == 7 {
            Location::C5
        } else if i == 8 {
            Location::C4
        } else if i == 9 {
            Location::C3
        } else if i == 10 {
            Location::D7
        } else if i == 11 {
            Location::D6
        } else if i == 12 {
            Location::D5
        } else if i == 13 {
            Location::D3
        } else if i == 14 {
            Location::D2
        } else if i == 15 {
            Location::D1
        } else if i == 16 {
            Location::E5
        } else if i == 17 {
            Location::E4
        } else if i == 18 {
            Location::E3
        } else if i == 19 {
            Location::F6
        } else if i == 20 {
            Location::F4
        } else if i == 21 {
            Location::F2
        } else if i == 22 {
            Location::G7
        } else if i == 23 {
            Location::G4
        } else if i == 24 {
            Location::G1
        } else {
            Location::Captured
        }
    }

    /// The name under which `self` is written in a snapshot.
    pub fn to_str(&self) -> (r: &'static str)
        ensures
            r@ == self.spec_name(),
    {
        match *self {
            Location::Hand => "Hand",
            Location::A7 => "A7",
            Location::A4 => "A4",
            Location::A1 => "A1",
            Location::B6 => "B6",
            Location::B4 => "B4",
            Location::B2 => "B2",
            Location::C5 => "C5",
            Location::C4 => "C4",
            Location::C3 => "C3",
            Location::D7 => "D7",
            Location::D6 => "D6",
            Location::D5 => "D5",
            Location::D3 => "D3",
            Location::D2 => "D2",
            Location::D1 => "D1",
            Location::E5 => "E5",
            Location::E4 => "E4",
            Location::E3 => "E3",
            Location::F6 => "F6",
            Location::F4 => "F4",
            Location::F2 => "F2",
            Location::G7 => "G7",
            Location::G4 => "G4",
            Location::G1 => "G1",
            Location::Captured => "Captured",
        }
    }

    /// The two lines of three through a board intersection, each as the pair
    /// of its other two intersections; `Err` for a place off the board.
    pub fn get_rows(location: Location) -> (r: Result<Vec<(Location, Location)>, ()>)
        ensures
            location.is_board() ==> (r matches Ok(v) && v@ == location.spec_rows()),
            !location.is_board() ==> r is Err,
    {
        match location {
            Location::A7 => Ok(vec![(Location::A1, Location::A4), (Location::D7, Location::G7)]),
            Location::A4 => Ok(vec![(Location::A7, Location::A1), (Location::B4, Location::C4)]),
            Location::A1 => Ok(vec![(Location::A7, Location::A4), (Location::D1, Location::G1)]),
            Location::B6 => Ok(vec![(Location::B4, Location::B2), (Location::D6, Location::F6)]),
            Location::B4 => Ok(vec![(Location::B2, Location::B6), (Location::A4, Location::C4)]),
            Location::B2 => Ok(vec![(Location::B6, Location::B4), (Location::D2, Location::F2)]),
            Location::C5 => Ok(vec![(Location::C4, Location::C3), (Location::D5, Location::E5)]),
            Location::C4 => Ok(vec![(Location::C3, Location::C5), (Location::A4, Location::B4)]),
            Location::C3 => Ok(vec![(Location::C4, Location::C5), (Location::D3, Location::E3)]),
            Location::D7 => Ok(vec![(Location::D5, Location::D6), (Location::A7, Location::G7)]),
            Location::D6 => Ok(vec![(Location::D5, Location::D7), (Location::B6, Location::F6)]),
            Location::D5 => Ok(vec![(Location::D6, Location::D7), (Location::C5, Location::E5)]),
            Location::D3 => Ok(vec![(Location::D2, Location::D1), (Location::C3, Location::E3)]),
            Location::D2 => Ok(vec![(Location::D1, Location::D3), (Location::B2, Location::F2)]),
            Location::D1 => Ok(vec![(Location::D2, Location::D3), (Location::A1, Location::G1)]),
            Location::E5 => Ok(vec![(Location::E4, Location::E3), (Location::C5, Location::D5)]),
            Location::E4 => Ok(vec![(Location::E3, Location::E5), (Location::F4, Location::G4)]),
            Location::E3 => Ok(vec![(Location::E4, Location::E5), (Location::C3, Location::D3)]),
            Location::F6 => Ok(vec![(Location::F2, Location::F4), (Location::D6, Location::B6)]),
            Location::F4 => Ok(vec![(Location::F2, Location::F6), (Location::E4, Location::G4)]),
            Location::F2 => Ok(vec![(Location::F6, Location::F4), (Location::D2, Location::B2)]),
            Location::G7 => Ok(vec![(Location::G4, Location::G1), (Location::D7, Location::A7)]),
            Location::G4 => Ok(vec![(Location::G1, Location::G7), (Location::E4, Location::F4)]),
            Location::G1 => Ok(vec![(Location::G4, Location::G7), (Location::D1, Location::A1)]),
            Location::Hand | Location::Captured => Err(()),
        }
    }

    /// The position of `self` in the declaration order.
    pub open spec fn spec_index(self) -> int {
        match self {
            Location::Hand => 0,
            Location::A7 => 1,
            Location::A4 => 2,
            Location::A1 => 3,
            Location::B6 => 4,
            Location::B4 => 5,
            Location::B2 => 6,
            Location::C5 => 7,
            Location::C4 => 8,
            Location::C3 => 9,
            Location::D7 => 10,
            Location::D6 => 11,
            Location::D5 => 12,
            Location::D3 => 13,
            Location::D2 => 14,
            Location::D1 => 15,
            Location::E5 => 16,
            Location::E4 => 17,
            Location::E3 => 18,
            Location::F6 => 19,
            Location::F4 => 20,
            Location::F2 => 21,
            Location::G7 => 22,
            Location::G4 => 23,
            Location::G1 => 24,
            Location::Captured => 25,
        }
    }

    /// Each place sits at its own position of the declaration order.
    pub proof fn lemma_index(self)
        ensures
            0 <= self.spec_index() < LOCATION_COUNT,
            Location::spec_nth(self.spec_index()) == self,
    {
    }

    /// No two places share a name.
    pub proof fn lemma_name_injective(a: Location, b: Location)
        ensures
            a.spec_name() == b.spec_name() ==> a == b,
    {
        reveal_strlit("Hand");
        reveal_strlit("A7");
        reveal_strlit("A4");
        reveal_strlit("A1");
        reveal_strlit("B6");
        reveal_strlit("B4");
        reveal_strlit("B2");
        reveal_strlit("C5");
        reveal_strlit("C4");
        reveal_strlit("C3");
        reveal_strlit("D7");
        reveal_strlit("D6");
        reveal_strlit("D5");
        reveal_strlit("D3");
        reveal_strlit("D2");
        reveal_strlit("D1");
        reveal_strlit("E5");
        reveal_strlit("E4");
        reveal_strlit("E3");
        reveal_strlit("F6");
        reveal_strlit("F4");
        reveal_strlit("F2");
        reveal_strlit("G7");
        reveal_strlit("G4");
        reveal_strlit("G1");
        reveal_strlit("Captured");
        if a.spec_name() == b.spec_name() {
            assert(a.spec_name().len() == b.spec_name().len());
            assert(a.spec_name()[0] == b.spec_name()[0]);
            assert(a.spec_name()[1] == b.spec_name()[1]);
        }
    }

    /// The place written under `code`, if `code` names one.
    pub fn parse(code: &str) -> (r: Option<Location>)
        ensures
            r matches Some(l) ==> l.spec_name() == code@,
            r is None ==> forall|l: Location| #[trigger] l.spec_name() != code@,
    {
        let mut i: usize = 0;
        while i < LOCATION_COUNT
            invariant
                i <= LOCATION_COUNT,
                forall|j: int| 0 <= j < i ==> #[trigger] Location::spec_nth(j).spec_name() != code@,
            decreases LOCATION_COUNT - i,
        {
            let l = Location::nth(i);
            if same_text(code, l.to_str()) {
                return Some(l);
            }
            i += 1;
        }
        proof {
            assert forall|l: Location| #[trigger] l.spec_name() != code@ by {
                l.lemma_index();
            }
        }
        None
    }

    /// The place written under `code`, which must name one.
    pub fn from_str(code: &str) -> (r: Location)
        requires
            exists|l: Location| #[trigger] l.spec_name() == code@,
        ensures
            r.spec_name() == code@,
    {
        match Location::parse(code) {
            Some(l) => l,
            None => {
                proof {
                    let l = choose|l: Location| #[trigger] l.spec_name() == code@;
                    assert(l.spec_name() == code@);
                }
                Location::Hand
            },
        }
    }
}

/// Whether the two texts hold the same characters.
pub(crate) fn same_text(a: &str, b: &str) -> (r: bool)
    ensures
        r == (a@ == b@),
{
    let n = a.unicode_len();
    if n != b.unicode_len() {
        return false;
    }
    let mut i: usize = 0;
    while i < n
        invariant
            n == a@.len(),
            n == b@.len(),
            i <= n,
            forall|j: int| 0 <= j < i ==> a@[j] == b@[j],
        decreases n - i,
    {
        if a.get_char(i) != b.get_char(i) {
            return false;
        }
        i += 1;
    }
    proof {
        assert(a@ =~= b@);
    }
    true
}

} // verus!
