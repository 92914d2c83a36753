use vstd::prelude::*;

use crate::json::{
    json_of, json_text, json_text_of, member, member_in, parse_json, spec_member, JsonValue,
};
use crate::location::Location;
use crate::piece::Piece;
use crate::player::Player;
use crate::rules::PIECE_COUNT;
use crate::{Game, GameState};

verus! {

/// Why a snapshot could not be loaded.
#[derive(PartialEq, Eq, Structural, Debug, Clone, Copy)]
pub enum LoadError {
    /// The text is not JSON.
    Syntax,
    /// A member is missing or holds a value of the wrong kind, or the turn
    /// counter does not fit in a byte.
    Format,
    /// The snapshot does not list eighteen pieces.
    PieceCount,
    /// A piece stands at a place that has no such name.
    UnknownLocation,
}

/// One piece as a snapshot writes it: the code of its player and the name
/// of its place.
#[derive(Debug)]
pub struct PieceRecord {
    pub player: u64,
    pub location: String,
}

/// A game as a snapshot writes it.
#[derive(Debug)]
pub struct Snapshot {
    pub pieces: Vec<PieceRecord>,
    pub turn: u64,
    pub player_turn: u64,
}

/// What a snapshot says: each piece as its player's code and its place's
/// name, the turn counter and the code of the player to move.
pub struct SnapshotState {
    pub records: Seq<(u64, Seq<char>)>,
    pub turn: u64,
    pub player_turn: u64,
}

impl View for Snapshot {
    type V = SnapshotState;

    open spec fn view(&self) -> SnapshotState {
        SnapshotState {
            records: self.pieces@.map_values(|r: PieceRecord| (r.player, r.location@)),
            turn: self.turn,
            player_turn: self.player_turn,
        }
    }
}

/// The code a snapshot writes for `p`.
pub open spec fn code_of(p: Player) -> u64 {
    match p {
        Player::One => 1,
        Player::Two => 2,
    }
}

/// The player a snapshot's code stands for: `2` is `Two`, any other code `One`.
pub open spec fn player_of_code(code: u64) -> Player {
    if code == 2 {
        Player::Two
    } else {
        Player::One
    }
}

/// Whether `name` names a place.
pub open spec fn is_name(name: Seq<char>) -> bool {
    exists|l: Location| #[trigger] l.spec_name() == name
}

/// The place that `name` names.
pub open spec fn named(name: Seq<char>) -> Location {
    choose|l: Location| #[trigger] l.spec_name() == name
}

/// The piece that a record stands for.
pub open spec fn piece_of(rec: (u64, Seq<char>)) -> Piece {
    Piece { player: player_of_code(rec.0), location: named(rec.1) }
}

/// The snapshot of a game.
pub open spec fn encode(g: GameState) -> SnapshotState {
    SnapshotState {
        records: g.pieces.map_values(|p: Piece| (code_of(p.player), p.location.spec_name())),
        turn: g.turn as u64,
        player_turn: code_of(g.next_player),
    }
}

/// Whether the snapshot lists eighteen pieces.
pub open spec fn right_count(s: SnapshotState) -> bool {
    s.records.len() == PIECE_COUNT
}

/// Whether every piece of the snapshot stands at a named place.
pub open spec fn names_known(s: SnapshotState) -> bool {
    forall|i: int| 0 <= i < s.records.len() ==> is_name(#[trigger] s.records[i].1)
}

/// The game a snapshot describes, or why it describes none: it must list
/// eighteen pieces, a turn counter that fits in a byte, and only named places.
pub open spec fn decode(s: SnapshotState) -> Result<GameState, LoadError> {
    if !right_count(s) {
        Err(LoadError::PieceCount)
    } else if s.turn > 255 {
        Err(LoadError::Format)
    } else if !names_known(s) {
        Err(LoadError::UnknownLocation)
    } else {
        Ok(
            GameState {
                pieces: s.records.map_values(|r: (u64, Seq<char>)| piece_of(r)),
                turn: s.turn as u8,
                next_player: player_of_code(s.player_turn),
            },
        )
    }
}

/// The record that a JSON piece holds: a `player` number and a `location`
/// string.
pub open spec fn record_of(item: JsonValue) -> Option<(u64, Seq<char>)> {
    match (spec_member(item, "player"@), spec_member(item, "location"@)) {
        (Some(JsonValue::Number(p)), Some(JsonValue::Str(l))) => Some((p, l@)),
        _ => None,
    }
}

/// The snapshot that a JSON value holds: an array `pieces` of records and
/// the numbers `turn` and `player_turn`.
pub open spec fn snapshot_of(j: JsonValue) -> Option<SnapshotState> {
    match (spec_member(j, "pieces"@), spec_member(j, "turn"@), spec_member(j, "player_turn"@)) {
        (Some(JsonValue::Array(items)), Some(JsonValue::Number(t)), Some(JsonValue::Number(p))) => {
            if forall|i: int| 0 <= i < items@.len() ==> (#[trigger] record_of(items@[i])) is Some {
                Some(
                    SnapshotState {
                        records: items@.map_values(|x: JsonValue| record_of(x)->0),
                        turn: t,
                        player_turn: p,
                    },
                )
            } else {
                None
            }
        },
        _ => None,
    }
}

/// What loading `text` gives: a syntax error where it is not JSON, a format
/// error where it does not hold a snapshot, else what the snapshot describes.
pub open spec fn load_result(text: Seq<char>) -> Result<GameState, LoadError> {
    match json_of(text) {
        None => Err(LoadError::Syntax),
        Some(j) => match snapshot_of(j) {
            None => Err(LoadError::Format),
            Some(s) => decode(s),
        },
    }
}

/// Whether `j` is the JSON object `{"player": code, "location": name}` of a
/// record.
pub open spec fn writes_record(j: JsonValue, rec: (u64, Seq<char>)) -> bool {
    &&& j matches JsonValue::Object(ms)
    &&& ms@.len() == 2
    &&& ms@[0].0@ == "player"@
    &&& ms@[0].1 == JsonValue::Number(rec.0)
    &&& ms@[1].0@ == "location"@
    &&& ms@[1].1 matches JsonValue::Str(l)
    &&& l@ == rec.1
}

/// Whether `j` is the JSON object `{"pieces": [...], "turn": t,
/// "player_turn": p}` of a snapshot, its pieces in order.
pub open spec fn writes_snapshot(j: JsonValue, s: SnapshotState) -> bool {
    &&& j matches JsonValue::Object(ms)
    &&& ms@.len() == 3
    &&& ms@[0].0@ == "pieces"@
    &&& ms@[0].1 matches JsonValue::Array(items)
    &&& items@.len() == s.records.len()
    &&& forall|i: int| 0 <= i < items@.len() ==> writes_record(#[trigger] items@[i], s.records[i])
    &&& ms@[1].0@ == "turn"@
    &&& ms@[1].1 == JsonValue::Number(s.turn)
    &&& ms@[2].0@ == "player_turn"@
    &&& ms@[2].1 == JsonValue::Number(s.player_turn)
}

/// Writing a game of eighteen pieces as a snapshot and reading it back gives
/// the same game: turn counter, player to move and every piece.
pub proof fn lemma_snapshot_round_trip(g: GameState)
    requires
        g.pieces.len() == PIECE_COUNT,
    ensures
        decode(encode(g)) == Ok::<GameState, LoadError>(g),
{
    let s = encode(g);
    assert forall|i: int| 0 <= i < s.records.len() implies is_name(#[trigger] s.records[i].1) by {
        assert(g.pieces[i].location.spec_name() == s.records[i].1);
    }
    let back = s.records.map_values(|r: (u64, Seq<char>)| piece_of(r));
    assert forall|i: int| 0 <= i < back.len() implies #[trigger] back[i] == g.pieces[i] by {
        let l = g.pieces[i].location;
        Location::lemma_name_injective(named(l.spec_name()), l);
    }
    assert(back =~= g.pieces);
}

/// Reading a record back from the JSON object written for it gives the
/// record.
proof fn lemma_record_reads_back(j: JsonValue, rec: (u64, Seq<char>))
    requires
        writes_record(j, rec),
    ensures
        record_of(j) == Some(rec),
{
    reveal_strlit("player");
    reveal_strlit("location");
    let ms = j->Object_0@;
    assert(ms.drop_first()[0] == ms[1]);
    assert(spec_member(j, "player"@) == Some(ms[0].1));
    assert("location"@.len() != "player"@.len());
    assert("location"@ != "player"@);
    assert(member_in(ms, "location"@) == member_in(ms.drop_first(), "location"@));
    assert(member_in(ms.drop_first(), "location"@) == Some(ms[1].1));
    assert(spec_member(j, "location"@) == Some(ms[1].1));
}

/// Reading back the JSON object written for a game of eighteen pieces gives
/// that game: any text that JSON reads as that object loads as the game.
pub proof fn lemma_written_json_reads_back(g: GameState, j: JsonValue)
    requires
        g.pieces.len() == PIECE_COUNT,
        writes_snapshot(j, encode(g)),
    ensures
        snapshot_of(j) == Some(encode(g)),
        forall|text: Seq<char>| json_of(text) == Some(j) ==> load_result(text) == Ok::<
            GameState,
            LoadError,
        >(g),
{
    reveal_strlit("pieces");
    reveal_strlit("turn");
    reveal_strlit("player_turn");
    let s = encode(g);
    let ms = j->Object_0@;
    assert(ms.drop_first()[0] == ms[1]);
    assert(ms.drop_first().drop_first()[0] == ms[2]);
    assert("turn"@.len() != "pieces"@.len());
    assert("turn"@ != "pieces"@);
    assert("player_turn"@.len() != "pieces"@.len());
    assert("player_turn"@ != "pieces"@);
    assert("player_turn"@.len() != "turn"@.len());
    assert("player_turn"@ != "turn"@);
    assert(spec_member(j, "pieces"@) == Some(ms[0].1));
    assert(member_in(ms, "turn"@) == member_in(ms.drop_first(), "turn"@));
    assert(member_in(ms.drop_first(), "turn"@) == Some(ms[1].1));
    assert(spec_member(j, "turn"@) == Some(ms[1].1));
    assert(member_in(ms, "player_turn"@) == member_in(ms.drop_first(), "player_turn"@));
    assert(member_in(ms.drop_first(), "player_turn"@) == member_in(
        ms.drop_first().drop_first(),
        "player_turn"@,
    ));
    assert(member_in(ms.drop_first().drop_first(), "player_turn"@) == Some(ms[2].1));
    assert(spec_member(j, "player_turn"@) == Some(ms[2].1));
    let items = ms[0].1->Array_0@;
    assert forall|i: int| 0 <= i < items.len() implies (#[trigger] record_of(items[i])) == Some(
        s.records[i],
    ) by {
        lemma_record_reads_back(items[i], s.records[i]);
    }
    assert(items.map_values(|x: JsonValue| record_of(x)->0) =~= s.records);
    lemma_snapshot_round_trip(g);
}

/// The code a snapshot writes for `player`.
pub fn wrap_player(player: Player) -> (r: u64)
    ensures
        r == code_of(player),
{
    match player {
        Player::Two => 2,
        Player::One => 1,
    }
}

/// The player a snapshot's code stands for.
pub fn unwrap_player(code: u64) -> (r: Player)
    ensures
        r == player_of_code(code),
{
    if code == 2 {
        Player::Two
    } else {
        Player::One
    }
}

impl Game {
    /// The snapshot of this game.
    pub fn to_snapshot(&self) -> (r: Snapshot)
        ensures
            r@ == encode(self@),
    {
        let pieces = self.get_pieces();
        let mut records: Vec<PieceRecord> = Vec::new();
        let mut i: usize = 0;
        while i < pieces.len()
            invariant
                pieces@ == self@.pieces,
                i <= pieces@.len(),
                records@.len() == i,
                forall|j: int|
                    0 <= j < i ==> (#[trigger] records@[j]).player == code_of(pieces@[j].player)
                        && records@[j].location@ == pieces@[j].location.spec_name(),
            decreases pieces@.len() - i,
        {
            let p = pieces[i];
            records.push(
                PieceRecord { player: wrap_player(p.player), location: p.location.to_str().to_owned() },
            );
            i += 1;
        }
        let r = Snapshot {
            pieces: records,
            turn: self.get_turn() as u64,
            player_turn: wrap_player(self.get_next_player()),
        };
        assert(r@.records =~= encode(self@).records);
        r
    }

    /// The game a snapshot describes: an error where it does not list
    /// eighteen pieces, where its turn counter does not fit in a byte, or
    /// where a piece stands at an unknown place.
    pub fn from_snapshot(s: &Snapshot) -> (r: Result<Game, LoadError>)
        ensures
            match decode(s@) {
                Ok(g) => r matches Ok(game) && game@ == g && game.wf(),
                Err(e) => r == Err::<Game, LoadError>(e),
            },
    {
        if s.pieces.len() != PIECE_COUNT {
            return Err(LoadError::PieceCount);
        }
        if s.turn > 255 {
            return Err(LoadError::Format);
        }
        let ghost recs = s@.records;
        let mut pieces: Vec<Piece> = Vec::new();
        let mut i: usize = 0;
        while i < s.pieces.len()
            invariant
                recs == s@.records,
                recs.len() == s.pieces@.len(),
                recs.len() == PIECE_COUNT,
                s@.turn <= 255,
                i <= recs.len(),
                pieces@.len() == i,
                forall|j: int| 0 <= j < i ==> is_name(#[trigger] recs[j].1),
                forall|j: int| 0 <= j < i ==> #[trigger] pieces@[j] == piece_of(recs[j]),
            decreases recs.len() - i,
        {
            let rec = &s.pieces[i];
            assert(recs[i as int] == (rec.player, rec.location@));
            let code = rec.location.as_str();
            match Location::parse(code) {
                Some(location) => {
                    proof {
                        Location::lemma_name_injective(location, named(rec.location@));
                    }
                    pieces.push(Piece::new(unwrap_player(rec.player), location));
                },
                None => {
                    assert(!is_name(recs[i as int].1));
                    assert(!names_known(s@));
                    return Err(LoadError::UnknownLocation);
                },
            }
            i += 1;
        }
        let game = Game::from_parts(pieces, s.turn as u8, unwrap_player(s.player_turn));
        assert(game@.pieces =~= decode(s@)->Ok_0.pieces);
        Ok(game)
    }

    /// Reads a game from the JSON text of its snapshot.
    pub fn load(serialised_game: &str) -> (r: Result<Game, LoadError>)
        ensures
            match load_result(serialised_game@) {
                Ok(g) => r matches Ok(game) && game@ == g && game.wf(),
                Err(e) => r == Err::<Game, LoadError>(e),
            },
    {
        let value = match parse_json(serialised_game) {
            Some(value) => value,
            None => {
                return Err(LoadError::Syntax);
            },
        };
        let snapshot = match read_snapshot(&value) {
            Some(snapshot) => snapshot,
            None => {
                return Err(LoadError::Format);
            },
        };
        Game::from_snapshot(&snapshot)
    }

    /// The JSON text of this game's snapshot.
    pub fn get_json(&self) -> (r: String)
        ensures
            exists|j: JsonValue| writes_snapshot(j, encode(self@)) && r@ == json_text_of(j),
    {
        let snapshot = self.to_snapshot();
        let value = snapshot_json(&snapshot);
        json_text(&value)
    }
}

/// The JSON object of a snapshot.
fn snapshot_json(s: &Snapshot) -> (r: JsonValue)
    ensures
        writes_snapshot(r, s@),
{
    let mut items: Vec<JsonValue> = Vec::new();
    let mut i: usize = 0;
    while i < s.pieces.len()
        invariant
            i <= s.pieces@.len(),
            items@.len() == i,
            forall|k: int| 0 <= k < i ==> writes_record(#[trigger] items@[k], s@.records[k]),
        decreases s.pieces@.len() - i,
    {
        let rec = &s.pieces[i];
        let mut fields: Vec<(String, JsonValue)> = Vec::new();
        fields.push(("player".to_owned(), JsonValue::Number(rec.player)));
        fields.push(("location".to_owned(), JsonValue::Str(rec.location.clone())));
        items.push(JsonValue::Object(fields));
        i += 1;
    }
    let mut fields: Vec<(String, JsonValue)> = Vec::new();
    fields.push(("pieces".to_owned(), JsonValue::Array(items)));
    fields.push(("turn".to_owned(), JsonValue::Number(s.turn)));
    fields.push(("player_turn".to_owned(), JsonValue::Number(s.player_turn)));
    JsonValue::Object(fields)
}

/// The record that a JSON piece holds, if it has both members.
fn read_record(item: &JsonValue) -> (r: Option<PieceRecord>)
    ensures
        match record_of(*item) {
            None => r is None,
            Some(rec) => r matches Some(x) && x.player == rec.0 && x.location@ == rec.1,
        },
{
    let player = match member(item, "player") {
        Some(JsonValue::Number(p)) => *p,
        _ => {
            return None;
        },
    };
    let location = match member(item, "location") {
        Some(JsonValue::Str(l)) => l.clone(),
        _ => {
            return None;
        },
    };
    Some(PieceRecord { player, location })
}

/// The snapshot that a JSON value holds, if it has every member it needs.
fn read_snapshot(value: &JsonValue) -> (r: Option<Snapshot>)
    ensures
        match snapshot_of(*value) {
            None => r is None,
            Some(s) => r matches Some(x) && x@ == s,
        },
{
    let items = match member(value, "pieces") {
        Some(JsonValue::Array(items)) => items,
        _ => {
            return None;
        },
    };
    let turn = match member(value, "turn") {
        Some(JsonValue::Number(t)) => *t,
        _ => {
            return None;
        },
    };
    let player_turn = match member(value, "player_turn") {
        Some(JsonValue::Number(p)) => *p,
        _ => {
            return None;
        },
    };
    let mut pieces: Vec<PieceRecord> = Vec::new();
    let mut i: usize = 0;
    while i < items.len()
        invariant
            snapshot_of(*value) == if forall|k: int|
                0 <= k < items@.len() ==> (#[trigger] record_of(items@[k])) is Some {
                Some(
                    SnapshotState {
                        records: items@.map_values(|x: JsonValue| record_of(x)->0),
                        turn,
                        player_turn,
                    },
                )
            } else {
                None::<SnapshotState>
            },
            i <= items@.len(),
            pieces@.len() == i,
            forall|k: int| 0 <= k < i ==> (#[trigger] record_of(items@[k])) is Some,
            forall|k: int|
                0 <= k < i ==> (#[trigger] pieces@[k]).player == (record_of(items@[k])->0).0
                    && pieces@[k].location@ == (record_of(items@[k])->0).1,
        decreases items@.len() - i,
    {
        match read_record(&items[i]) {
            Some(rec) => pieces.push(rec),
            None => {
                assert(record_of(items@[i as int]) is None);
                return None;
            },
        }
        i += 1;
    }
    let r = Snapshot { pieces, turn, player_turn };
    assert(r@.records =~= items@.map_values(|x: JsonValue| record_of(x)->0));
    Some(r)
}

} // verus!
