use morris::{Game, GameMove, GameStatus, LoadError, Location, Piece, Player};

#[test]
fn new_games_have_18_pieces() {
    let game = Game::new();
    assert_eq!(game.get_pieces().len(), 18);
}

#[test]
fn new_games_have_had_zero_turns() {
    let game = Game::new();
    assert_eq!(game.get_turn(), 0);
}

#[test]
fn new_games_start_at_player_1() {
    let game = Game::new();
    assert_eq!(game.get_next_player(), Player::One);
}

#[test]
fn placing_onto_an_empty_table_is_a_valid_move() {
    let mut game = Game::new();
    let new_move = GameMove::new(Player::One, Location::Hand, Location::A7, None);
    assert!(game.submit(new_move));
}

#[test]
fn playing_out_of_turn_is_an_invalid_move() {
    let mut game = Game::new();
    let new_move = GameMove::new(Player::Two, Location::Hand, Location::A7, None);
    assert!(!game.submit(new_move));
}

#[test]
fn after_a_valid_move_the_player_rotates() {
    let mut game = Game::new();
    let new_move = GameMove::new(Player::One, Location::Hand, Location::A7, None);
    game.submit(new_move);
    assert_eq!(game.get_next_player(), Player::Two);
}

#[test]
fn all_pieces_start_in_hand() {
    let game = Game::new();
    let pieces = game.get_pieces();
    for piece in pieces {
        assert_eq!(piece.get_location(), Location::Hand);
    }
}

#[test]
fn it_updates_the_piece_when_a_valid_move_is_taken() {
    let mut game = Game::new();
    let new_move = GameMove::new(Player::One, Location::Hand, Location::A7, None);
    game.submit(new_move);
    let pieces = game.get_pieces();
    assert!(pieces.iter().any(|&x| x.get_location() == Location::A7));
}

#[test]
fn it_increments_the_turn_after_a_valid_move() {
    let mut game = Game::new();
    let new_move = GameMove::new(Player::One, Location::Hand, Location::A7, None);
    game.submit(new_move);
    let turn = game.get_turn();
    assert_eq!(turn, 1);
}

#[test]
fn a_piece_cannot_be_placed_upon_an_existing_position() {
    let mut game = Game::new();
    let new_move = GameMove::new(Player::One, Location::Hand, Location::A7, None);
    game.submit(new_move);
    let next_move = GameMove::new(Player::Two, Location::Hand, Location::A7, None);
    assert_eq!(game.submit(next_move), false);
}

#[test]
fn a_player_can_only_move_its_own_piece() {
    let mut game = Game::new();
    let new_move = GameMove::new(Player::One, Location::Hand, Location::A7, None);
    game.submit(new_move);
    let next_move = GameMove::new(Player::Two, Location::Hand, Location::A4, None);
    game.submit(next_move);
    let pieces = game.get_pieces();
    assert_piece_exists(&pieces, Player::Two, Location::A4);
}

#[test]
fn it_can_load_from_json() {
    let game = Game::load(get_json()).unwrap();
    let turn = game.get_turn();
    assert_eq!(turn, 2);
    let pieces = game.get_pieces();
    assert_piece_exists(&pieces, Player::One, Location::A7);
}

#[test]
fn a_piece_cannot_be_moved_while_any_are_left_in_hand() {
    let mut game = Game::new();
    let new_move = GameMove::new(Player::One, Location::A7, Location::A4, None);
    assert_eq!(game.submit(new_move), false);
}

#[test]
fn once_all_pieces_are_placed_a_piece_can_be_moved_one_space() {
    let mut game = Game::load(get_json()).unwrap();
    let new_move = GameMove::new(Player::One, Location::C5, Location::C4, None);

    assert!(game.submit(new_move));
    let pieces = game.get_pieces();
    assert_piece_exists(&pieces, Player::One, Location::C4);
    assert_piece_doesnt_exist(&pieces, Player::One, Location::C5);
}

#[test]
fn pieces_cant_be_moved_more_than_one_space() {
    let mut game = Game::load(get_late_game()).unwrap();
    let new_move = GameMove::new(Player::One, Location::C5, Location::E3, None);

    assert_eq!(game.submit(new_move), false);
}

#[test]
fn when_there_is_three_in_a_row_an_opponents_piece_can_be_removed() {
    let mut game = Game::load(get_json()).unwrap();
    let new_move = GameMove::new(Player::One, Location::F4, Location::G4, Some(Location::D2));

    let successful_move = game.submit(new_move);
    assert!(successful_move);
    let pieces = game.get_pieces();
    assert_piece_doesnt_exist(&pieces, Player::Two, Location::D2);
}

#[test]
fn when_the_removal_results_in_the_opponent_having_less_than_3_pieces_the_game_ends() {
    let mut game = Game::load(get_completable_game()).unwrap();
    let new_move = GameMove::new(Player::One, Location::F4, Location::G4, Some(Location::D7));
    assert!(game.submit(new_move));
    assert_eq!(game.get_status(), GameStatus::Win(Player::One));
}

#[test]
fn when_both_players_have_3_pieces_the_status_is_playing() {
    let game = Game::new();
    let status = game.get_status();
    assert_eq!(status, GameStatus::Playing);
}

#[test]
fn pieces_in_a_mill_cannot_be_removed_while_there_are_alternatives() {
    let mut game = Game::load(get_existing_mill()).unwrap();
    let new_move = GameMove::new(Player::One, Location::F4, Location::G4, Some(Location::D3));
    assert_eq!(game.submit(new_move), false);
}

#[test]
fn when_the_game_has_been_won_no_more_moves_can_be_made() {
    let mut game = Game::load(get_completable_game()).unwrap();
    let new_move = GameMove::new(Player::One, Location::F4, Location::G4, Some(Location::D7));
    game.submit(new_move);
    let invalid_move = GameMove::new(Player::Two, Location::F6, Location::D6, None);
    assert_eq!(game.submit(invalid_move), false);
}

// ------------------------------------------------------------------------------------------------

fn assert_piece_exists(pieces: &Vec<Piece>, player: Player, location: Location) {
    assert!(pieces.iter().any(|&x| {
        x.get_location() == location && x.get_player() == player
    }), "piece doesn't seem to exist");
}

fn assert_piece_doesnt_exist(pieces: &Vec<Piece>, player: Player, location: Location) {
    assert_eq!(pieces.iter().any(|&x| {
        x.get_location() == location && x.get_player() == player
    }), false, "piece exists");
}

fn get_json() -> &'static str {
    r#"{
        "pieces": [
            { "player": 1, "location": "A7"},
            { "player": 1, "location": "A1"},
            { "player": 1, "location": "G1"},
            { "player": 1, "location": "G7"},
            { "player": 1, "location": "B6"},
            { "player": 1, "location": "E4"},
            { "player": 1, "location": "F4"},
            { "player": 1, "location": "F2"},
            { "player": 1, "location": "C5"},
            { "player": 2, "location": "F6"},
            { "player": 2, "location": "B4"},
            { "player": 2, "location": "D7"},
            { "player": 2, "location": "D1"},
            { "player": 2, "location": "A4"},
            { "player": 2, "location": "D5"},
            { "player": 2, "location": "D2"},
            { "player": 2, "location": "D6"},
            { "player": 2, "location": "E3"}
        ],
        "turn": 2,
        "player_turn": 1
    }"#
}

fn get_late_game() -> &'static str {
    r#"{
        "pieces": [
            { "player": 1, "location": "A7"},
            { "player": 1, "location": "A1"},
            { "player": 1, "location": "G1"},
            { "player": 1, "location": "G7"},
            { "player": 1, "location": "B6"},
            { "player": 1, "location": "E4"},
            { "player": 1, "location": "Captured"},
            { "player": 1, "location": "Captured"},
            { "player": 1, "location": "Captured"},
            { "player": 2, "location": "F6"},
            { "player": 2, "location": "B4"},
            { "player": 2, "location": "D7"},
            { "player": 2, "location": "D1"},
            { "player": 2, "location": "A4"},
            { "player": 2, "location": "Captured"},
            { "player": 2, "location": "Captured"},
            { "player": 2, "location": "Captured"},
            { "player": 2, "location": "Captured"}
        ],
        "turn": 2,
        "player_turn": 1
    }"#
}

fn get_completable_game() -> &'static str {
    r#"{
        "pieces": [
            { "player": 1, "location": "A7"},
            { "player": 1, "location": "A1"},
            { "player": 1, "location": "G1"},
            { "player": 1, "location": "G7"},
            { "player": 1, "location": "F4"},
            { "player": 1, "location": "E4"},
            { "player": 1, "location": "Captured"},
            { "player": 1, "location": "Captured"},
            { "player": 1, "location": "Captured"},
            { "player": 2, "location": "F6"},
            { "player": 2, "location": "Captured"},
            { "player": 2, "location": "D7"},
            { "player": 2, "location": "D1"},
            { "player": 2, "location": "Captured"},
            { "player": 2, "location": "Captured"},
            { "player": 2, "location": "Captured"},
            { "player": 2, "location": "Captured"},
            { "player": 2, "location": "Captured"}
        ],
        "turn": 2,
        "player_turn": 1
    }"#
}

fn get_existing_mill() -> &'static str {
    r#"{
        "pieces": [
            { "player": 1, "location": "A7"},
            { "player": 1, "location": "A1"},
            { "player": 1, "location": "G1"},
            { "player": 1, "location": "G7"},
            { "player": 1, "location": "F4"},
            { "player": 1, "location": "E4"},
            { "player": 1, "location": "Captured"},
            { "player": 1, "location": "Captured"},
            { "player": 1, "location": "Captured"},
            { "player": 2, "location": "F6"},
            { "player": 2, "location": "D3"},
            { "player": 2, "location": "D7"},
            { "player": 2, "location": "D1"},
            { "player": 2, "location": "D2"},
            { "player": 2, "location": "Captured"},
            { "player": 2, "location": "Captured"},
            { "player": 2, "location": "Captured"},
            { "player": 2, "location": "Captured"}
        ],
        "turn": 2,
        "player_turn": 1
    }"#
}

fn mv(player: Player, from: Location, to: Location, remove: Option<Location>) -> GameMove {
    GameMove::new(player, from, to, remove)
}

fn get_only_mill_pieces_left() -> &'static str {
    r#"{
        "pieces": [
            { "player": 1, "location": "A7"},
            { "player": 1, "location": "A1"},
            { "player": 1, "location": "G1"},
            { "player": 1, "location": "G7"},
            { "player": 1, "location": "F4"},
            { "player": 1, "location": "E4"},
            { "player": 1, "location": "Captured"},
            { "player": 1, "location": "Captured"},
            { "player": 1, "location": "Captured"},
            { "player": 2, "location": "Captured"},
            { "player": 2, "location": "D3"},
            { "player": 2, "location": "Captured"},
            { "player": 2, "location": "D1"},
            { "player": 2, "location": "D2"},
            { "player": 2, "location": "Captured"},
            { "player": 2, "location": "Captured"},
            { "player": 2, "location": "Captured"},
            { "player": 2, "location": "Captured"}
        ],
        "turn": 7,
        "player_turn": 1
    }"#
}

#[test]
fn a_new_game_has_nine_pieces_per_player_in_hand() {
    let pieces = Game::new().get_pieces();
    assert_eq!(pieces.len(), 18);
    assert_eq!(pieces.iter().filter(|p| p.get_player() == Player::One).count(), 9);
    assert_eq!(pieces.iter().filter(|p| p.get_player() == Player::Two).count(), 9);
}

#[test]
fn placing_moves_exactly_one_piece_out_of_hand() {
    let mut game = Game::new();
    assert!(game.submit(mv(Player::One, Location::Hand, Location::A7, None)));
    let pieces = game.get_pieces();
    assert_eq!(pieces.iter().filter(|p| p.get_location() == Location::A7).count(), 1);
    assert_eq!(pieces.iter().filter(|p| p.get_location() == Location::Hand).count(), 17);
    assert_eq!(game.get_pieces().len(), 18);
}

#[test]
fn players_alternate_over_accepted_moves_only() {
    let mut game = Game::new();
    assert!(game.submit(mv(Player::One, Location::Hand, Location::A7, None)));
    assert_eq!(game.get_next_player(), Player::Two);
    assert!(!game.submit(mv(Player::One, Location::Hand, Location::A4, None)));
    assert_eq!(game.get_next_player(), Player::Two);
    assert!(game.submit(mv(Player::Two, Location::Hand, Location::A4, None)));
    assert_eq!(game.get_next_player(), Player::One);
    assert!(game.submit(mv(Player::One, Location::Hand, Location::A1, None)));
    assert_eq!(game.get_next_player(), Player::Two);
    assert_eq!(game.get_turn(), 3);
}

#[test]
fn a_rejected_move_changes_nothing() {
    let mut game = Game::new();
    assert!(game.submit(mv(Player::One, Location::Hand, Location::A7, None)));
    let before = game.get_pieces();
    assert!(!game.submit(mv(Player::Two, Location::Hand, Location::A7, None)));
    assert_eq!(game.get_pieces(), before);
    assert_eq!(game.get_turn(), 1);
    assert_eq!(game.get_next_player(), Player::Two);
}

#[test]
fn moves_onto_places_off_the_board_are_rejected() {
    let mut game = Game::new();
    assert!(!game.submit(mv(Player::One, Location::Hand, Location::Captured, None)));
    assert!(!game.submit(mv(Player::One, Location::Hand, Location::Hand, None)));
    assert_eq!(game, Game::new());
}

#[test]
fn a_removal_off_the_board_is_rejected() {
    let mut game = Game::load(get_json()).unwrap();
    assert!(!game.submit(mv(Player::One, Location::F4, Location::G4, Some(Location::Hand))));
    assert_eq!(game.get_turn(), 2);
}

#[test]
fn forming_a_mill_without_naming_a_removal_takes_nothing() {
    let mut game = Game::load(get_json()).unwrap();
    assert!(game.submit(mv(Player::One, Location::F4, Location::G4, None)));
    let pieces = game.get_pieces();
    assert!(!pieces.iter().any(|p| p.get_location() == Location::Captured));
}

#[test]
fn naming_a_removal_without_a_mill_takes_nothing() {
    let mut game = Game::load(get_json()).unwrap();
    assert!(game.submit(mv(Player::One, Location::C5, Location::C4, Some(Location::D2))));
    let pieces = game.get_pieces();
    assert_piece_exists(&pieces, Player::Two, Location::D2);
    assert!(!pieces.iter().any(|p| p.get_location() == Location::Captured));
}

#[test]
fn a_mill_piece_can_be_taken_when_the_opponent_has_no_other() {
    let mut game = Game::load(get_only_mill_pieces_left()).unwrap();
    assert_eq!(game.get_status(), GameStatus::Playing);
    assert!(game.submit(mv(Player::One, Location::F4, Location::G4, Some(Location::D3))));
    let pieces = game.get_pieces();
    assert_piece_doesnt_exist(&pieces, Player::Two, Location::D3);
    assert_eq!(game.get_status(), GameStatus::Win(Player::One));
}

#[test]
fn a_player_with_seven_pieces_taken_loses() {
    let mut game = Game::load(get_completable_game()).unwrap();
    assert_eq!(game.get_status(), GameStatus::Playing);
    assert!(game.submit(mv(Player::One, Location::F4, Location::G4, Some(Location::D7))));
    assert_eq!(game.get_status(), GameStatus::Win(Player::One));
    assert!(!game.submit(mv(Player::Two, Location::D1, Location::D2, None)));
    assert_eq!(game.get_turn(), 3);
}

#[test]
fn saving_and_loading_gives_the_same_game() {
    let mut game = Game::new();
    assert!(game.submit(mv(Player::One, Location::Hand, Location::A7, None)));
    assert!(game.submit(mv(Player::Two, Location::Hand, Location::D3, None)));
    let text = game.get_json();
    let loaded = Game::load(&text).unwrap();
    assert_eq!(loaded, game);
    assert_eq!(loaded.get_turn(), 2);
    assert_eq!(loaded.get_next_player(), Player::One);
}

#[test]
fn the_json_text_holds_the_snapshot_members() {
    let mut game = Game::new();
    assert!(game.submit(mv(Player::One, Location::Hand, Location::A7, None)));
    let text = game.get_json();
    assert!(text.contains("\"turn\":1"));
    assert!(text.contains("\"player_turn\":2"));
    assert!(text.contains("\"location\":\"A7\""));
    assert!(text.contains("\"location\":\"Hand\""));
}

#[test]
fn unknown_player_codes_load_as_player_one() {
    let text = get_json().replace("\"player_turn\": 1", "\"player_turn\": 5");
    let game = Game::load(&text).unwrap();
    assert_eq!(game.get_next_player(), Player::One);
}

#[test]
fn malformed_text_is_a_syntax_error() {
    assert_eq!(Game::load("{ not json"), Err(LoadError::Syntax));
}

#[test]
fn a_missing_member_is_a_format_error() {
    let text = get_json().replace("\"turn\": 2,", "");
    assert_eq!(Game::load(&text), Err(LoadError::Format));
}

#[test]
fn a_wrong_number_of_pieces_is_refused() {
    let text = get_json().replace("{ \"player\": 2, \"location\": \"D6\"},", "");
    assert_eq!(Game::load(&text), Err(LoadError::PieceCount));
}

#[test]
fn an_unknown_place_is_refused() {
    let text = get_json().replace("\"E3\"", "\"H9\"");
    assert_eq!(Game::load(&text), Err(LoadError::UnknownLocation));
}

#[test]
fn place_names_read_back() {
    assert_eq!(Location::from_str("A7"), Location::A7);
    assert_eq!(Location::from_str("Captured"), Location::Captured);
    assert_eq!(Location::G1.to_str(), "G1");
    assert_eq!(Location::parse("Hand"), Some(Location::Hand));
    assert_eq!(Location::parse("Z9"), None);
}

#[test]
fn rows_of_board_places() {
    assert_eq!(
        Location::get_rows(Location::A7),
        Ok(vec![(Location::A1, Location::A4), (Location::D7, Location::G7)])
    );
    assert_eq!(
        Location::get_rows(Location::E4),
        Ok(vec![(Location::E3, Location::E5), (Location::F4, Location::G4)])
    );
    assert_eq!(Location::get_rows(Location::Hand), Err(()));
    assert_eq!(Location::get_rows(Location::Captured), Err(()));
}

#[test]
fn pieces_and_moves_keep_their_parts() {
    let piece = Piece::new(Player::Two, Location::B4);
    assert_eq!(piece.get_player(), Player::Two);
    assert_eq!(piece.get_location(), Location::B4);
    let m = GameMove::new(Player::One, Location::C5, Location::C4, Some(Location::D2));
    assert_eq!(m.get_player(), Player::One);
    assert_eq!(m.get_from(), Location::C5);
    assert_eq!(m.get_to(), Location::C4);
    assert_eq!(m.get_remove(), Some(Location::D2));
}

#[test]
fn a_capture_takes_every_opponent_piece_at_the_place() {
    let text = get_json().replace("\"D1\"", "\"D2\"");
    let mut game = Game::load(&text).unwrap();
    assert!(game.submit(mv(Player::One, Location::F4, Location::G4, Some(Location::D2))));
    let pieces = game.get_pieces();
    assert_piece_doesnt_exist(&pieces, Player::Two, Location::D2);
    assert_eq!(pieces.iter().filter(|p| p.get_location() == Location::Captured).count(), 2);
}

#[test]
fn a_turn_counter_above_a_byte_is_refused() {
    let text = get_json().replace("\"turn\": 2", "\"turn\": 300");
    assert_eq!(Game::load(&text), Err(LoadError::Format));
}

#[test]
fn a_member_of_the_wrong_kind_is_a_format_error() {
    let text = get_json().replace("\"player_turn\": 1", "\"player_turn\": \"one\"");
    assert_eq!(Game::load(&text), Err(LoadError::Format));
}

#[test]
fn a_new_game_is_written_with_every_piece_in_hand() {
    let text = Game::new().get_json();
    assert_eq!(text.matches("\"location\":\"Hand\"").count(), 18);
    assert_eq!(text.matches("\"player\":1").count(), 9);
    assert_eq!(text.matches("\"player\":2").count(), 9);
    assert!(text.contains("\"turn\":0"));
    assert!(text.contains("\"player_turn\":1"));
    assert_eq!(Game::load(&text), Ok(Game::new()));
}
