use gamesync::handlers::{Envelope, handle_read};
use gamesync::netloop::{classify_read, server_step, ClientAction, RecvEvent, ServerAction, client_step};
use gamesync::protocol::{decode_envelope, handle_read_server};
use gamesync::state::{GameObject, GameState, PlayerRecord, Room, SpriteState};

fn bounding_wall() -> GameObject {
    GameObject { id: 0, x: 0, y: 0, width: 1000, height: 1000 }
}

fn player(id: i64, x: i64, y: i64) -> PlayerRecord {
    PlayerRecord {
        id,
        x,
        y,
        width: 50,
        height: 50,
        sprite_state: SpriteState::West,
        skin: 0,
        shields: 0,
        room: 1,
    }
}

fn two_room_server_state() -> GameState {
    GameState {
        rooms: vec![
            Room { room_id: 1, objects: vec![bounding_wall()], players: vec![], npcs: vec![] },
            Room { room_id: 2, objects: vec![bounding_wall()], players: vec![], npcs: vec![] },
        ],
    }
}

#[test]
fn get_player_appends_to_every_room_and_acks() {
    let mut game = two_room_server_state();
    let msg = "{\"get_player\": {\"id\": 7, \"x\": 10, \"y\": 20, \"width\": 50, \"height\": 50, \
                \"spriteState\": 3, \"skin\": 0, \"shields\": 0, \"room\": 1}}";
    let resp = handle_read_server(msg, &mut game);
    assert_eq!(resp, "{\"status\":\"ok\"}");
    assert_eq!(game.rooms.len(), 2);
    for room in &game.rooms {
        assert_eq!(room.players.len(), 1);
        assert_eq!(room.players[0].id, 7);
        assert_eq!(room.players[0].x, 10);
        assert_eq!(room.players[0].y, 20);
    }
}

#[test]
fn client_update_patches_position_only() {
    let mut game = two_room_server_state();
    game.rooms[0].players.push(player(7, 400, 250));
    let msg = "{\"type\": \"update\", \"player_id\": \"7\", \"data\": {\"x\": 42, \"y\": 9}}";
    let resp = handle_read_server(msg, &mut game);
    assert_eq!(resp, "{\"status\":\"ok\"}");
    let p = &game.rooms[0].players[0];
    assert_eq!(p.x, 42);
    assert_eq!(p.y, 9);
    assert_eq!(p.width, 50);
    assert_eq!(p.height, 50);
    assert_eq!(p.sprite_state, SpriteState::West);
    assert_eq!(p.skin, 0);
    assert_eq!(p.shields, 0);
    assert_eq!(p.room, 1);
}

#[test]
fn zero_byte_read_stops_the_loop_cleanly() {
    let mut game = two_room_server_state();
    game.rooms[0].players.push(player(7, 1, 2));
    let ev = classify_read(0, String::new());
    assert!(matches!(ev, RecvEvent::Closed));
    let action = server_step(&mut game, &ev);
    assert!(matches!(action, ServerAction::Stop));
    assert_eq!(game.rooms[0].players.len(), 1);
    assert_eq!(game.rooms[0].players[0].x, 1);
    let caction = client_step(&mut game, &RecvEvent::Closed);
    assert!(matches!(caction, ClientAction::Stop));
}

#[test]
fn malformed_text_gets_the_error_envelope_on_the_server() {
    let mut game = two_room_server_state();
    let resp = handle_read_server("this is not json", &mut game);
    assert_eq!(resp, "{\"status\":\"error\"}");
    assert_eq!(game.rooms[0].players.len(), 0);
}

#[test]
fn malformed_text_is_ignored_on_the_client() {
    let mut game = two_room_server_state();
    game.rooms[0].players.push(player(5, 3, 4));
    handle_read::handle_read_msg("{{{", &mut game);
    assert_eq!(game.rooms[0].players.len(), 1);
    assert_eq!(game.rooms[0].players[0].x, 3);
}

#[test]
fn single_key_envelope_runs_only_its_handler() {
    let mut game = two_room_server_state();
    game.rooms[0].players.push(player(7, 100, 100));
    game.rooms[0].npcs.push(player(7, 500, 500));
    let env = decode_envelope("{\"update_position\": {\"id\": 7, \"x\": 1}}").unwrap();
    handle_read::apply_envelope(&mut game, env);
    // the player moved, the NPC with the same id did not
    assert_eq!(game.rooms[0].players[0].x, 1);
    assert_eq!(game.rooms[0].players[0].y, 100);
    assert_eq!(game.rooms[0].npcs[0].x, 500);
    // no record was added anywhere
    assert_eq!(game.rooms[0].players.len(), 1);
    assert_eq!(game.rooms[1].players.len(), 0);
}

#[test]
fn two_key_envelope_runs_both_handlers_in_order() {
    let mut game = two_room_server_state();
    let msg = "{\"get_player\": {\"id\": 9, \"x\": 0, \"y\": 0, \"width\": 50, \"height\": 50, \
                \"spriteState\": 0, \"skin\": 1, \"shields\": 2, \"room\": 1}, \
                \"update_position\": {\"id\": 9, \"x\": 77}}";
    let env = decode_envelope(msg).unwrap();
    handle_read::apply_envelope(&mut game, env);
    // the upsert ran first, so the patch found the new record
    for room in &game.rooms {
        assert_eq!(room.players.len(), 1);
        assert_eq!(room.players[0].id, 9);
        assert_eq!(room.players[0].x, 77);
        assert_eq!(room.players[0].y, 0);
        assert_eq!(room.players[0].skin, 1);
    }
}

#[test]
fn get_game_replaces_the_shadow_and_is_idempotent() {
    let mut game = GameState { rooms: vec![] };
    let msg = "{\"get_game\": {\"room1\": {\"roomID\": 1, \
                \"objects\": [{\"x\": 0, \"y\": 0, \"width\": 1000, \"height\": 1000, \"id\": 0}], \
                \"players\": [{\"id\": 3, \"x\": 8, \"y\": 9, \"width\": 50, \"height\": 50, \
                               \"spriteState\": 2, \"skin\": 0, \"shields\": 0, \"room\": 1}], \
                \"npcs\": []}}}";
    handle_read::handle_read_msg(msg, &mut game);
    assert_eq!(game.rooms.len(), 1);
    assert_eq!(game.rooms[0].room_id, 1);
    assert_eq!(game.rooms[0].objects.len(), 1);
    assert_eq!(game.rooms[0].players.len(), 1);
    assert_eq!(game.rooms[0].players[0].id, 3);
    assert_eq!(game.rooms[0].players[0].sprite_state, SpriteState::South);
    // a second application of the identical payload changes nothing
    handle_read::handle_read_msg(msg, &mut game);
    assert_eq!(game.rooms.len(), 1);
    assert_eq!(game.rooms[0].players.len(), 1);
    assert_eq!(game.rooms[0].players[0].x, 8);
    // prior content is discarded wholesale, not merged
    let other = "{\"get_game\": {\"room2\": {\"roomID\": 2, \"objects\": [], \
                  \"players\": [], \"npcs\": []}}}";
    handle_read::handle_read_msg(other, &mut game);
    assert_eq!(game.rooms.len(), 1);
    assert_eq!(game.rooms[0].room_id, 2);
    assert_eq!(game.rooms[0].players.len(), 0);
}

#[test]
fn partial_patch_leaves_absent_fields_unchanged() {
    let mut game = two_room_server_state();
    game.rooms[0].players.push(PlayerRecord {
        id: 4,
        x: 10,
        y: 20,
        width: 30,
        height: 40,
        sprite_state: SpriteState::East,
        skin: 5,
        shields: 6,
        room: 1,
    });
    let env = decode_envelope("{\"update_position\": {\"id\": 4, \"x\": 99}}").unwrap();
    handle_read::apply_envelope(&mut game, env);
    let p = &game.rooms[0].players[0];
    assert_eq!(p.x, 99);
    assert_eq!(p.y, 20);
    assert_eq!(p.width, 30);
    assert_eq!(p.height, 40);
    assert_eq!(p.sprite_state, SpriteState::East);
}

#[test]
fn upsert_appends_new_id_and_replaces_existing_in_place() {
    let mut game = two_room_server_state();
    game.rooms[0].players.push(player(1, 0, 0));
    game.rooms[0].players.push(player(2, 5, 5));
    // a new id appends exactly one entry
    let msg_new = "{\"get_player\": {\"id\": 3, \"x\": 1, \"y\": 1, \"width\": 50, \"height\": 50, \
                    \"spriteState\": 1, \"skin\": 0, \"shields\": 0, \"room\": 1}}";
    handle_read::apply_envelope(&mut game, decode_envelope(msg_new).unwrap());
    assert_eq!(game.rooms[0].players.len(), 3);
    assert_eq!(game.rooms[0].players[2].id, 3);
    // an existing id is replaced in place, keeping the length
    let msg_old = "{\"get_player\": {\"id\": 2, \"x\": 8, \"y\": 8, \"width\": 50, \"height\": 50, \
                    \"spriteState\": 1, \"skin\": 9, \"shields\": 0, \"room\": 1}}";
    handle_read::apply_envelope(&mut game, decode_envelope(msg_old).unwrap());
    assert_eq!(game.rooms[0].players.len(), 3);
    assert_eq!(game.rooms[0].players[1].id, 2);
    assert_eq!(game.rooms[0].players[1].x, 8);
    assert_eq!(game.rooms[0].players[1].skin, 9);
    assert_eq!(game.rooms[0].players[0].x, 0);
}

#[test]
fn updates_for_distinct_ids_are_both_reflected() {
    let mut game = two_room_server_state();
    game.rooms[0].players.push(player(1, 0, 0));
    game.rooms[0].players.push(player(2, 0, 0));
    let m1 = "{\"type\": \"update\", \"player_id\": \"1\", \"data\": {\"x\": 11, \"y\": 12}}";
    let m2 = "{\"type\": \"update\", \"player_id\": \"2\", \"data\": {\"x\": 21, \"y\": 22}}";
    handle_read_server(m1, &mut game);
    handle_read_server(m2, &mut game);
    assert_eq!(game.rooms[0].players[0].x, 11);
    assert_eq!(game.rooms[0].players[0].y, 12);
    assert_eq!(game.rooms[0].players[1].x, 21);
    assert_eq!(game.rooms[0].players[1].y, 22);
}

#[test]
fn updates_for_the_same_id_never_mix_fields() {
    let mut game = two_room_server_state();
    game.rooms[0].players.push(player(1, 0, 0));
    let m1 = "{\"type\": \"update\", \"player_id\": \"1\", \"data\": {\"x\": 11, \"y\": 12}}";
    let m2 = "{\"type\": \"update\", \"player_id\": \"1\", \"data\": {\"x\": 21, \"y\": 22}}";
    handle_read_server(m1, &mut game);
    handle_read_server(m2, &mut game);
    let p = &game.rooms[0].players[0];
    // the second update's values in full, never a blend
    assert_eq!((p.x, p.y), (21, 22));
}

#[test]
fn unrecognized_keys_are_acknowledged_and_change_nothing() {
    let mut game = two_room_server_state();
    let resp = handle_read_server("{\"something_else\": 5}", &mut game);
    assert_eq!(resp, "{\"status\":\"ok\"}");
    assert_eq!(game.rooms[0].players.len(), 0);
}

#[test]
fn envelope_with_bad_payload_is_rejected() {
    // a sprite code outside the four directions makes the payload malformed
    let msg = "{\"get_player\": {\"id\": 7, \"x\": 10, \"y\": 20, \"width\": 50, \"height\": 50, \
                \"spriteState\": 9, \"skin\": 0, \"shields\": 0, \"room\": 1}}";
    assert!(decode_envelope(msg).is_none());
    // a missing required field does too
    let msg2 = "{\"get_player\": {\"id\": 7}}";
    assert!(decode_envelope(msg2).is_none());
    // an update patch without an id is malformed
    assert!(decode_envelope("{\"update_position\": {\"x\": 1}}").is_none());
    // the server answers a malformed recognized key with the error
    // envelope and leaves the world untouched
    let mut game = two_room_server_state();
    assert_eq!(handle_read_server(msg2, &mut game), "{\"status\":\"error\"}");
    assert_eq!(game.rooms[0].players.len(), 0);
    assert_eq!(game.rooms[1].players.len(), 0);
}

#[test]
fn npc_updates_touch_npcs_not_players() {
    let mut game = two_room_server_state();
    game.rooms[0].players.push(player(7, 100, 100));
    game.rooms[0].npcs.push(player(7, 500, 500));
    let env = decode_envelope("{\"update_npc_position\": {\"id\": 7, \"y\": 1}}").unwrap();
    handle_read::apply_envelope(&mut game, env);
    assert_eq!(game.rooms[0].npcs[0].y, 1);
    assert_eq!(game.rooms[0].npcs[0].x, 500);
    assert_eq!(game.rooms[0].players[0].y, 100);
}

#[test]
fn player_and_npc_patches_in_one_envelope_each_hit_their_collection() {
    let mut game = two_room_server_state();
    game.rooms[0].players.push(player(7, 100, 100));
    game.rooms[0].npcs.push(player(7, 500, 500));
    let msg = "{\"update_position\": {\"id\": 7, \"x\": 1}, \
                \"update_npc_position\": {\"id\": 7, \"x\": 2}}";
    handle_read::apply_envelope(&mut game, decode_envelope(msg).unwrap());
    assert_eq!(game.rooms[0].players[0].x, 1);
    assert_eq!(game.rooms[0].npcs[0].x, 2);
}

#[test]
fn sprite_codes_round_trip_through_the_four_directions() {
    for (code, dir) in [
        (0, SpriteState::North),
        (1, SpriteState::East),
        (2, SpriteState::South),
        (3, SpriteState::West),
    ] {
        assert_eq!(SpriteState::from_code(code), Some(dir));
        assert_eq!(dir.code(), code);
    }
    assert_eq!(SpriteState::from_code(4), None);
    assert_eq!(SpriteState::from_code(-1), None);
}

#[test]
fn the_render_snapshot_copies_exactly_my_room() {
    let mut game = two_room_server_state();
    game.rooms[1].players.push(player(7, 10, 20));
    let snap = gamesync::state::snapshot_room(&game, 2).unwrap();
    assert_eq!(snap.room_id, 2);
    assert_eq!(snap.objects, game.rooms[1].objects);
    assert_eq!(snap.players, game.rooms[1].players);
    assert_eq!(snap.npcs, game.rooms[1].npcs);
    assert!(gamesync::state::snapshot_room(&game, 9).is_none());
}

#[test]
fn json_contains_sees_top_level_keys_of_objects_only() {
    let v: serde_json::Value = serde_json::from_str("{\"a\": {\"b\": 1}}").unwrap();
    assert!(gamesync::json::json_contains(&v, "a"));
    assert!(!gamesync::json::json_contains(&v, "b"));
    let non_object: serde_json::Value = serde_json::from_str("[1, 2]").unwrap();
    assert!(!gamesync::json::json_contains(&non_object, "a"));
}

#[test]
fn client_updates_with_bad_ids_move_nobody() {
    let mut game = two_room_server_state();
    game.rooms[0].players.push(player(7, 0, 0));
    // these parse as JSON but not as an update, and they carry no
    // recognized envelope key either: each is acknowledged as a no-op
    let bad = "{\"type\": \"update\", \"player_id\": \"7a\", \"data\": {\"x\": 1, \"y\": 2}}";
    assert_eq!(handle_read_server(bad, &mut game), "{\"status\":\"ok\"}");
    let partial = "{\"type\": \"update\", \"player_id\": \"7\", \"data\": {\"x\": 1}}";
    assert_eq!(handle_read_server(partial, &mut game), "{\"status\":\"ok\"}");
    let wrong_tag = "{\"type\": \"move\", \"player_id\": \"7\", \"data\": {\"x\": 1, \"y\": 2}}";
    assert_eq!(handle_read_server(wrong_tag, &mut game), "{\"status\":\"ok\"}");
    assert_eq!(game.rooms[0].players[0].x, 0);
    assert_eq!(game.rooms[0].players[0].y, 0);
}

#[test]
fn envelope_decode_keeps_absent_keys_none() {
    let env: Envelope = decode_envelope("{}").unwrap();
    assert!(env.get_game.is_none());
    assert!(env.get_player.is_none());
    assert!(env.update_position.is_none());
    assert!(env.update_npc_position.is_none());
}
