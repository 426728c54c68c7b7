use gamesync::text::{i64_to_string, parse_u16, parse_u64, str_eq, u64_to_string};
use gamesync::wire::{encode_update, error_response, ok_response};

#[test]
fn parse_u64_accepts_plain_digit_strings() {
    assert_eq!(parse_u64("0"), Some(0));
    assert_eq!(parse_u64("7"), Some(7));
    assert_eq!(parse_u64("5766"), Some(5766));
    assert_eq!(parse_u64("007"), Some(7));
    assert_eq!(parse_u64("18446744073709551615"), Some(u64::MAX));
}

#[test]
fn parse_u64_rejects_everything_else() {
    assert_eq!(parse_u64(""), None);
    assert_eq!(parse_u64("abc"), None);
    assert_eq!(parse_u64("12a"), None);
    assert_eq!(parse_u64("-3"), None);
    assert_eq!(parse_u64(" 3"), None);
    assert_eq!(parse_u64("18446744073709551616"), None);
    assert_eq!(parse_u64("99999999999999999999999"), None);
}

#[test]
fn parse_u16_enforces_the_port_range() {
    assert_eq!(parse_u16("5766"), Some(5766));
    assert_eq!(parse_u16("65535"), Some(65535));
    assert_eq!(parse_u16("65536"), None);
    assert_eq!(parse_u16(""), None);
    assert_eq!(parse_u16("port"), None);
}

#[test]
fn rendering_is_exact() {
    assert_eq!(u64_to_string(0), "0");
    assert_eq!(u64_to_string(7), "7");
    assert_eq!(u64_to_string(5766), "5766");
    assert_eq!(u64_to_string(u64::MAX), "18446744073709551615");
    assert_eq!(i64_to_string(-42), "-42");
    assert_eq!(i64_to_string(0), "0");
    assert_eq!(i64_to_string(i64::MIN), "-9223372036854775808");
}

#[test]
fn rendering_then_parsing_returns_the_number() {
    for n in [0u64, 1, 9, 10, 99, 100, 5766, 123456789, u64::MAX] {
        assert_eq!(parse_u64(&u64_to_string(n)), Some(n));
    }
}

#[test]
fn str_eq_compares_by_characters() {
    assert!(str_eq("", ""));
    assert!(str_eq("update", "update"));
    assert!(!str_eq("update", "updatE"));
    assert!(!str_eq("update", "updat"));
}

#[test]
fn responses_are_the_fixed_envelopes() {
    assert_eq!(ok_response(), "{\"status\":\"ok\"}");
    assert_eq!(error_response(), "{\"status\":\"error\"}");
}

#[test]
fn the_update_message_is_rendered_exactly() {
    assert_eq!(
        encode_update(7, 42, 9),
        "{\"type\":\"update\",\"player_id\":\"7\",\"data\":{\"x\":42,\"y\":9}}"
    );
    assert_eq!(
        encode_update(123, -5, 0),
        "{\"type\":\"update\",\"player_id\":\"123\",\"data\":{\"x\":-5,\"y\":0}}"
    );
}

#[test]
fn the_update_message_round_trips_through_the_decoder() {
    let mut game = gamesync::state::GameState {
        rooms: vec![gamesync::state::Room {
            room_id: 1,
            objects: vec![],
            players: vec![gamesync::state::PlayerRecord {
                id: 7,
                x: 0,
                y: 0,
                width: 50,
                height: 50,
                sprite_state: gamesync::state::SpriteState::North,
                skin: 0,
                shields: 0,
                room: 1,
            }],
            npcs: vec![],
        }],
    };
    let wire = encode_update(7, 42, 9);
    let resp = gamesync::protocol::handle_read_server(&wire, &mut game);
    assert_eq!(resp, "{\"status\":\"ok\"}");
    assert_eq!(game.rooms[0].players[0].x, 42);
    assert_eq!(game.rooms[0].players[0].y, 9);
}
