//! Decoding wire text into typed messages, and the two dispatch entry
//! points: the client's state-message path and the server's update path.
//! Every decoder's result is pinned to a spec-level decode of the JSON
//! model, so the entry points' contracts fix the state effect and the
//! reply for every wire text.

use vstd::prelude::*;
use crate::handlers::{Envelope, EnvelopeView, handle_read, spec_apply_envelope};
use crate::json::{
    JsonView, json_as_array, json_as_i64, json_as_str, json_get, json_object_values, json_view,
    parse_json, spec_field, spec_int_field, spec_parse_json, spec_str_field,
};
use crate::state::{
    GameObject, GameState, PlayerRecord, PositionPatch, Room, RoomView, SpriteState,
    spec_patch_game_players,
};
use crate::text::{parse_u64, spec_all_digits, spec_dec_value, str_eq};
use crate::wire::{error_response, ok_response, spec_error_wire, spec_ok_wire};

verus! {

/// The client-to-server update: which player moved and where to.
#[derive(Clone, Copy, PartialEq, Eq, Structural, Debug)]
pub struct ClientUpdate {
    pub player_id: i64,
    pub x: i64,
    pub y: i64,
}

/// The patch a client update stands for: both coordinates and nothing
/// else.
pub open spec fn spec_move_patch(player_id: i64, x: i64, y: i64) -> PositionPatch {
    PositionPatch {
        id: player_id,
        x: Some(x),
        y: Some(y),
        width: None,
        height: None,
        sprite_state: None,
    }
}

/// The member under a key when it is a JSON array, `None` otherwise.
pub open spec fn spec_array_field(j: JsonView, key: Seq<char>) -> Option<Seq<JsonView>> {
    match spec_field(j, key) {
        Some(JsonView::Array(es)) => Some(es),
        _ => None,
    }
}

/// An optional integer member: absent is fine (`Some(None)`), present
/// and integer is its value, present but of another shape fails.
pub open spec fn spec_opt_int_field(j: JsonView, key: Seq<char>) -> Option<Option<i64>> {
    match spec_field(j, key) {
        None => Some(None),
        Some(JsonView::Int(n)) => Some(Some(n)),
        Some(_) => None,
    }
}

/// An optional sprite member: absent is fine, a valid direction code is
/// its direction, anything else fails.
pub open spec fn spec_opt_sprite_field(j: JsonView, key: Seq<char>) -> Option<
    Option<SpriteState>,
> {
    match spec_field(j, key) {
        None => Some(None),
        Some(JsonView::Int(c)) => match SpriteState::spec_from_code(c) {
            Some(s) => Some(Some(s)),
            None => None,
        },
        Some(_) => None,
    }
}

/// The player record a wire object denotes: every field present and
/// well-typed, the sprite code one of the four directions.
pub open spec fn spec_decode_player(j: JsonView) -> Option<PlayerRecord> {
    if spec_int_field(j, "id"@) is Some && spec_int_field(j, "x"@) is Some && spec_int_field(
        j,
        "y"@,
    ) is Some && spec_int_field(j, "width"@) is Some && spec_int_field(j, "height"@) is Some
        && spec_int_field(j, "spriteState"@) is Some && SpriteState::spec_from_code(
        spec_int_field(j, "spriteState"@)->0,
    ) is Some && spec_int_field(j, "skin"@) is Some && spec_int_field(j, "shields"@) is Some
        && spec_int_field(j, "room"@) is Some {
        Some(
            PlayerRecord {
                id: spec_int_field(j, "id"@)->0,
                x: spec_int_field(j, "x"@)->0,
                y: spec_int_field(j, "y"@)->0,
                width: spec_int_field(j, "width"@)->0,
                height: spec_int_field(j, "height"@)->0,
                sprite_state: SpriteState::spec_from_code(spec_int_field(j, "spriteState"@)->0)->0,
                skin: spec_int_field(j, "skin"@)->0,
                shields: spec_int_field(j, "shields"@)->0,
                room: spec_int_field(j, "room"@)->0,
            },
        )
    } else {
        None
    }
}

/// The partial update a wire object denotes: the id required, the other
/// fields optional but well-typed when present.
pub open spec fn spec_decode_patch(j: JsonView) -> Option<PositionPatch> {
    if spec_int_field(j, "id"@) is Some && spec_opt_int_field(j, "x"@) is Some
        && spec_opt_int_field(j, "y"@) is Some && spec_opt_int_field(j, "width"@) is Some
        && spec_opt_int_field(j, "height"@) is Some && spec_opt_sprite_field(
        j,
        "spriteState"@,
    ) is Some {
        Some(
            PositionPatch {
                id: spec_int_field(j, "id"@)->0,
                x: spec_opt_int_field(j, "x"@)->0,
                y: spec_opt_int_field(j, "y"@)->0,
                width: spec_opt_int_field(j, "width"@)->0,
                height: spec_opt_int_field(j, "height"@)->0,
                sprite_state: spec_opt_sprite_field(j, "spriteState"@)->0,
            },
        )
    } else {
        None
    }
}

/// The static object a wire object denotes.
pub open spec fn spec_decode_object(j: JsonView) -> Option<GameObject> {
    if spec_int_field(j, "id"@) is Some && spec_int_field(j, "x"@) is Some && spec_int_field(
        j,
        "y"@,
    ) is Some && spec_int_field(j, "width"@) is Some && spec_int_field(j, "height"@) is Some {
        Some(
            GameObject {
                id: spec_int_field(j, "id"@)->0,
                x: spec_int_field(j, "x"@)->0,
                y: spec_int_field(j, "y"@)->0,
                width: spec_int_field(j, "width"@)->0,
                height: spec_int_field(j, "height"@)->0,
            },
        )
    } else {
        None
    }
}

/// The objects a wire array denotes: all elements or nothing.
pub open spec fn spec_decode_objects(es: Seq<JsonView>) -> Option<Seq<GameObject>> {
    if forall|i: int| 0 <= i < es.len() ==> spec_decode_object(#[trigger] es[i]) is Some {
        Some(Seq::new(es.len(), |i: int| spec_decode_object(es[i])->0))
    } else {
        None
    }
}

/// The player records a wire array denotes: all elements or nothing.
pub open spec fn spec_decode_players(es: Seq<JsonView>) -> Option<Seq<PlayerRecord>> {
    if forall|i: int| 0 <= i < es.len() ==> spec_decode_player(#[trigger] es[i]) is Some {
        Some(Seq::new(es.len(), |i: int| spec_decode_player(es[i])->0))
    } else {
        None
    }
}

/// The room a wire object denotes: its id and its three collections.
pub open spec fn spec_decode_room(j: JsonView) -> Option<RoomView> {
    if spec_int_field(j, "roomID"@) is Some && spec_array_field(j, "objects"@) is Some
        && spec_decode_objects(spec_array_field(j, "objects"@)->0) is Some && spec_array_field(
        j,
        "players"@,
    ) is Some && spec_decode_players(spec_array_field(j, "players"@)->0) is Some
        && spec_array_field(j, "npcs"@) is Some && spec_decode_players(
        spec_array_field(j, "npcs"@)->0,
    ) is Some {
        Some(
            RoomView {
                room_id: spec_int_field(j, "roomID"@)->0,
                objects: spec_decode_objects(spec_array_field(j, "objects"@)->0)->0,
                players: spec_decode_players(spec_array_field(j, "players"@)->0)->0,
                npcs: spec_decode_players(spec_array_field(j, "npcs"@)->0)->0,
            },
        )
    } else {
        None
    }
}

/// The rooms a sequence of wire objects denotes: all or nothing.
pub open spec fn spec_decode_rooms(es: Seq<JsonView>) -> Option<Seq<RoomView>> {
    if forall|i: int| 0 <= i < es.len() ==> spec_decode_room(#[trigger] es[i]) is Some {
        Some(Seq::new(es.len(), |i: int| spec_decode_room(es[i])->0))
    } else {
        None
    }
}

/// The world tree a wire object denotes: one room per member, in the
/// order the tree hands them out.
pub open spec fn spec_decode_game(j: JsonView) -> Option<Seq<RoomView>> {
    match j {
        JsonView::Object(es) => spec_decode_rooms(
            es.map_values(|p: (Seq<char>, JsonView)| p.1),
        ),
        _ => None,
    }
}

/// The `get_game` key: absent is fine, a present key must carry a
/// well-formed tree.
pub open spec fn spec_opt_game_field(j: JsonView) -> Option<Option<Seq<RoomView>>> {
    match spec_field(j, "get_game"@) {
        None => Some(None),
        Some(f) => match spec_decode_game(f) {
            Some(g) => Some(Some(g)),
            None => None,
        },
    }
}

/// The `get_player` key: absent is fine, a present key must carry a
/// well-formed record.
pub open spec fn spec_opt_player_field(j: JsonView) -> Option<Option<PlayerRecord>> {
    match spec_field(j, "get_player"@) {
        None => Some(None),
        Some(f) => match spec_decode_player(f) {
            Some(p) => Some(Some(p)),
            None => None,
        },
    }
}

/// An update key: absent is fine, a present key must carry a
/// well-formed patch.
pub open spec fn spec_opt_patch_field(j: JsonView, key: Seq<char>) -> Option<
    Option<PositionPatch>,
> {
    match spec_field(j, key) {
        None => Some(None),
        Some(f) => match spec_decode_patch(f) {
            Some(p) => Some(Some(p)),
            None => None,
        },
    }
}

/// The envelope a parsed wire value denotes: each recognized key that is
/// present becomes a payload; a present key with a malformed payload
/// makes the whole envelope malformed.
pub open spec fn spec_envelope_of(j: JsonView) -> Option<EnvelopeView> {
    if spec_opt_game_field(j) is Some && spec_opt_player_field(j) is Some && spec_opt_patch_field(
        j,
        "update_position"@,
    ) is Some && spec_opt_patch_field(j, "update_npc_position"@) is Some {
        Some(
            EnvelopeView {
                get_game: spec_opt_game_field(j)->0,
                get_player: spec_opt_player_field(j)->0,
                update_position: spec_opt_patch_field(j, "update_position"@)->0,
                update_npc_position: spec_opt_patch_field(j, "update_npc_position"@)->0,
            },
        )
    } else {
        None
    }
}

/// The envelope a wire text denotes: `None` when the text is not JSON
/// or a present key carries a malformed payload.
pub open spec fn spec_decode_envelope(s: Seq<char>) -> Option<EnvelopeView> {
    match spec_parse_json(s) {
        Some(j) => spec_envelope_of(j),
        None => None,
    }
}

/// The client update a parsed wire value denotes: `"type": "update"`, a
/// digit-string player id that fits, and both coordinates under `data`.
pub open spec fn spec_decode_client_update(j: JsonView) -> Option<ClientUpdate> {
    if spec_str_field(j, "type"@) == Some("update"@) && spec_str_field(j, "player_id"@) is Some
        && spec_str_field(j, "player_id"@)->0.len() > 0 && spec_all_digits(
        spec_str_field(j, "player_id"@)->0,
    ) && spec_dec_value(spec_str_field(j, "player_id"@)->0) <= i64::MAX && spec_field(
        j,
        "data"@,
    ) is Some && spec_int_field(spec_field(j, "data"@)->0, "x"@) is Some && spec_int_field(
        spec_field(j, "data"@)->0,
        "y"@,
    ) is Some {
        Some(
            ClientUpdate {
                player_id: spec_dec_value(spec_str_field(j, "player_id"@)->0) as i64,
                x: spec_int_field(spec_field(j, "data"@)->0, "x"@)->0,
                y: spec_int_field(spec_field(j, "data"@)->0, "y"@)->0,
            },
        )
    } else {
        None
    }
}

/// The shadow after the client handles one wire text: the envelope's
/// application when the text decodes, the shadow untouched otherwise.
pub open spec fn spec_client_state(g: Seq<RoomView>, s: Seq<char>) -> Seq<RoomView> {
    match spec_decode_envelope(s) {
        Some(ev) => spec_apply_envelope(g, ev),
        None => g,
    }
}

/// What the server does with one wire text: the state it leaves behind
/// and the reply it owes.  Text that is not JSON, or whose recognized
/// payload is malformed, changes nothing and earns the error envelope;
/// a client update patches the named player's position; anything else
/// that parses runs the envelope handlers; every handled message earns
/// the ok envelope.
pub open spec fn spec_server_outcome(g: Seq<RoomView>, s: Seq<char>) -> (Seq<RoomView>, Seq<char>) {
    match spec_parse_json(s) {
        None => (g, spec_error_wire()),
        Some(j) => match spec_decode_client_update(j) {
            Some(u) => (
                spec_patch_game_players(g, spec_move_patch(u.player_id, u.x, u.y)),
                spec_ok_wire(),
            ),
            None => match spec_envelope_of(j) {
                Some(ev) => (spec_apply_envelope(g, ev), spec_ok_wire()),
                None => (g, spec_error_wire()),
            },
        },
    }
}

/// One player or NPC record from its wire object; every field must be
/// present and well-typed.
pub fn decode_player(v: &serde_json::Value) -> (r: Option<PlayerRecord>)
    ensures
        r == spec_decode_player(json_view(*v)),
{
    let id = match json_get(v, "id") {
        Some(f) => match json_as_i64(f) {
            Some(n) => n,
            None => { return None; },
        },
        None => { return None; },
    };
    let x = match json_get(v, "x") {
        Some(f) => match json_as_i64(f) {
            Some(n) => n,
            None => { return None; },
        },
        None => { return None; },
    };
    let y = match json_get(v, "y") {
        Some(f) => match json_as_i64(f) {
            Some(n) => n,
            None => { return None; },
        },
        None => { return None; },
    };
    let width = match json_get(v, "width") {
        Some(f) => match json_as_i64(f) {
            Some(n) => n,
            None => { return None; },
        },
        None => { return None; },
    };
    let height = match json_get(v, "height") {
        Some(f) => match json_as_i64(f) {
            Some(n) => n,
            None => { return None; },
        },
        None => { return None; },
    };
    let sprite_state = match json_get(v, "spriteState") {
        Some(f) => match json_as_i64(f) {
            Some(c) => match SpriteState::from_code(c) {
                Some(s) => s,
                None => { return None; },
            },
            None => { return None; },
        },
        None => { return None; },
    };
    let skin = match json_get(v, "skin") {
        Some(f) => match json_as_i64(f) {
            Some(n) => n,
            None => { return None; },
        },
        None => { return None; },
    };
    let shields = match json_get(v, "shields") {
        Some(f) => match json_as_i64(f) {
            Some(n) => n,
            None => { return None; },
        },
        None => { return None; },
    };
    let room = match json_get(v, "room") {
        Some(f) => match json_as_i64(f) {
            Some(n) => n,
            None => { return None; },
        },
        None => { return None; },
    };
    Some(PlayerRecord { id, x, y, width, height, sprite_state, skin, shields, room })
}

/// One partial update from its wire object: the id must be present, the
/// other fields are optional but must be well-typed when present.
pub fn decode_patch(v: &serde_json::Value) -> (r: Option<PositionPatch>)
    ensures
        r == spec_decode_patch(json_view(*v)),
{
    let id = match json_get(v, "id") {
        Some(f) => match json_as_i64(f) {
            Some(n) => n,
            None => { return None; },
        },
        None => { return None; },
    };
    let x = match json_get(v, "x") {
        Some(f) => match json_as_i64(f) {
            Some(n) => Some(n),
            None => { return None; },
        },
        None => None,
    };
    let y = match json_get(v, "y") {
        Some(f) => match json_as_i64(f) {
            Some(n) => Some(n),
            None => { return None; },
        },
        None => None,
    };
    let width = match json_get(v, "width") {
        Some(f) => match json_as_i64(f) {
            Some(n) => Some(n),
            None => { return None; },
        },
        None => None,
    };
    let height = match json_get(v, "height") {
        Some(f) => match json_as_i64(f) {
            Some(n) => Some(n),
            None => { return None; },
        },
        None => None,
    };
    let sprite_state = match json_get(v, "spriteState") {
        Some(f) => match json_as_i64(f) {
            Some(c) => match SpriteState::from_code(c) {
                Some(s) => Some(s),
                None => { return None; },
            },
            None => { return None; },
        },
        None => None,
    };
    Some(PositionPatch { id, x, y, width, height, sprite_state })
}

/// One static object from its wire object.
pub fn decode_object(v: &serde_json::Value) -> (r: Option<GameObject>)
    ensures
        r == spec_decode_object(json_view(*v)),
{
    let id = match json_get(v, "id") {
        Some(f) => match json_as_i64(f) {
            Some(n) => n,
            None => { return None; },
        },
        None => { return None; },
    };
    let x = match json_get(v, "x") {
        Some(f) => match json_as_i64(f) {
            Some(n) => n,
            None => { return None; },
        },
        None => { return None; },
    };
    let y = match json_get(v, "y") {
        Some(f) => match json_as_i64(f) {
            Some(n) => n,
            None => { return None; },
        },
        None => { return None; },
    };
    let width = match json_get(v, "width") {
        Some(f) => match json_as_i64(f) {
            Some(n) => n,
            None => { return None; },
        },
        None => { return None; },
    };
    let height = match json_get(v, "height") {
        Some(f) => match json_as_i64(f) {
            Some(n) => n,
            None => { return None; },
        },
        None => { return None; },
    };
    Some(GameObject { id, x, y, width, height })
}

/// One room from its wire object: the room id and its three collections.
#[verifier::loop_isolation(false)]
pub fn decode_room(v: &serde_json::Value) -> (r: Option<Room>)
    ensures
        r is Some <==> spec_decode_room(json_view(*v)) is Some,
        r matches Some(room) ==> Some(room@) == spec_decode_room(json_view(*v)),
{
    let ghost j = json_view(*v);
    let room_id = match json_get(v, "roomID") {
        Some(f) => match json_as_i64(f) {
            Some(n) => n,
            None => { return None; },
        },
        None => { return None; },
    };
    let object_values = match json_get(v, "objects") {
        Some(f) => match json_as_array(f) {
            Some(a) => a,
            None => { return None; },
        },
        None => { return None; },
    };
    let ghost ov = object_values@.map_values(|e: serde_json::Value| json_view(e));
    assert(spec_array_field(j, "objects"@) == Some(ov));
    let mut objects: Vec<GameObject> = Vec::new();
    let mut i: usize = 0;
    while i < object_values.len()
        invariant
            0 <= i <= object_values@.len(),
            ov.len() == object_values@.len(),
            forall|t: int|
                0 <= t < object_values@.len() ==> #[trigger] ov[t] == json_view(
                    object_values@[t],
                ),
            objects@.len() == i,
            forall|t: int|
                0 <= t < i ==> spec_decode_object(#[trigger] ov[t]) is Some && objects@[t]
                    == spec_decode_object(ov[t])->0,
        decreases object_values@.len() - i,
    {
        match decode_object(&object_values[i]) {
            Some(o) => objects.push(o),
            None => {
                proof {
                    assert(!(spec_decode_object(ov[i as int]) is Some));
                }
                return None;
            },
        }
        i = i + 1;
    }
    assert(objects@ =~= Seq::new(ov.len(), |t: int| spec_decode_object(ov[t])->0));
    let player_values = match json_get(v, "players") {
        Some(f) => match json_as_array(f) {
            Some(a) => a,
            None => { return None; },
        },
        None => { return None; },
    };
    let ghost pv = player_values@.map_values(|e: serde_json::Value| json_view(e));
    assert(spec_array_field(j, "players"@) == Some(pv));
    let mut players: Vec<PlayerRecord> = Vec::new();
    let mut jx: usize = 0;
    while jx < player_values.len()
        invariant
            0 <= jx <= player_values@.len(),
            pv.len() == player_values@.len(),
            forall|t: int|
                0 <= t < player_values@.len() ==> #[trigger] pv[t] == json_view(
                    player_values@[t],
                ),
            players@.len() == jx,
            forall|t: int|
                0 <= t < jx ==> spec_decode_player(#[trigger] pv[t]) is Some && players@[t]
                    == spec_decode_player(pv[t])->0,
        decreases player_values@.len() - jx,
    {
        match decode_player(&player_values[jx]) {
            Some(p) => players.push(p),
            None => {
                proof {
                    assert(!(spec_decode_player(pv[jx as int]) is Some));
                }
                return None;
            },
        }
        jx = jx + 1;
    }
    assert(players@ =~= Seq::new(pv.len(), |t: int| spec_decode_player(pv[t])->0));
    let npc_values = match json_get(v, "npcs") {
        Some(f) => match json_as_array(f) {
            Some(a) => a,
            None => { return None; },
        },
        None => { return None; },
    };
    let ghost nv = npc_values@.map_values(|e: serde_json::Value| json_view(e));
    assert(spec_array_field(j, "npcs"@) == Some(nv));
    let mut npcs: Vec<PlayerRecord> = Vec::new();
    let mut k: usize = 0;
    while k < npc_values.len()
        invariant
            0 <= k <= npc_values@.len(),
            nv.len() == npc_values@.len(),
            forall|t: int|
                0 <= t < npc_values@.len() ==> #[trigger] nv[t] == json_view(npc_values@[t]),
            npcs@.len() == k,
            forall|t: int|
                0 <= t < k ==> spec_decode_player(#[trigger] nv[t]) is Some && npcs@[t]
                    == spec_decode_player(nv[t])->0,
        decreases npc_values@.len() - k,
    {
        match decode_player(&npc_values[k]) {
            Some(p) => npcs.push(p),
            None => {
                proof {
                    assert(!(spec_decode_player(nv[k as int]) is Some));
                }
                return None;
            },
        }
        k = k + 1;
    }
    assert(npcs@ =~= Seq::new(nv.len(), |t: int| spec_decode_player(nv[t])->0));
    Some(Room { room_id, objects, players, npcs })
}

/// A whole world tree from its wire object: one room per member of the
/// top-level map, in the order serde_json hands them out.
#[verifier::loop_isolation(false)]
pub fn decode_game(v: &serde_json::Value) -> (r: Option<GameState>)
    ensures
        r is Some <==> spec_decode_game(json_view(*v)) is Some,
        r matches Some(g) ==> Some(g@) == spec_decode_game(json_view(*v)),
{
    let room_values = match json_object_values(v) {
        Some(a) => a,
        None => { return None; },
    };
    let ghost rv = room_values@.map_values(|e: serde_json::Value| json_view(e));
    assert(spec_decode_game(json_view(*v)) == spec_decode_rooms(rv));
    let mut rooms: Vec<Room> = Vec::new();
    let mut i: usize = 0;
    while i < room_values.len()
        invariant
            0 <= i <= room_values@.len(),
            rv.len() == room_values@.len(),
            forall|t: int|
                0 <= t < room_values@.len() ==> #[trigger] rv[t] == json_view(room_values@[t]),
            rooms@.len() == i,
            forall|t: int|
                0 <= t < i ==> spec_decode_room(#[trigger] rv[t]) is Some && rooms@[t]@
                    == spec_decode_room(rv[t])->0,
        decreases room_values@.len() - i,
    {
        match decode_room(&room_values[i]) {
            Some(r) => rooms.push(r),
            None => {
                proof {
                    assert(!(spec_decode_room(rv[i as int]) is Some));
                }
                return None;
            },
        }
        i = i + 1;
    }
    let g = GameState { rooms };
    assert(g@ =~= Seq::new(rv.len(), |t: int| spec_decode_room(rv[t])->0));
    Some(g)
}

/// A state-message envelope from wire text.  `None` when the text is not
/// JSON or a present key carries a malformed payload; a key that is
/// absent from the wire map leaves its field `None`.
pub fn decode_envelope(message: &str) -> (r: Option<Envelope>)
    ensures
        r is Some <==> spec_decode_envelope(message@) is Some,
        r matches Some(env) ==> Some(env@) == spec_decode_envelope(message@),
{
    let v = match parse_json(message) {
        Some(v) => v,
        None => { return None; },
    };
    let ghost j = json_view(v);
    let get_game = match json_get(&v, "get_game") {
        Some(f) => match decode_game(f) {
            Some(g) => Some(g),
            None => { return None; },
        },
        None => None,
    };
    let get_player = match json_get(&v, "get_player") {
        Some(f) => match decode_player(f) {
            Some(p) => Some(p),
            None => { return None; },
        },
        None => None,
    };
    let update_position = match json_get(&v, "update_position") {
        Some(f) => match decode_patch(f) {
            Some(p) => Some(p),
            None => { return None; },
        },
        None => None,
    };
    let update_npc_position = match json_get(&v, "update_npc_position") {
        Some(f) => match decode_patch(f) {
            Some(p) => Some(p),
            None => { return None; },
        },
        None => None,
    };
    let env = Envelope { get_game, get_player, update_position, update_npc_position };
    assert(Some(env@) == spec_envelope_of(j));
    Some(env)
}

/// The client-to-server update from its parsed wire object: requires
/// `"type": "update"`, a digit-string player id, and both coordinates.
pub fn decode_client_update(v: &serde_json::Value) -> (r: Option<ClientUpdate>)
    ensures
        r == spec_decode_client_update(json_view(*v)),
{
    let tag = match json_get(v, "type") {
        Some(f) => match json_as_str(f) {
            Some(t) => t,
            None => { return None; },
        },
        None => { return None; },
    };
    if !str_eq(tag, "update") {
        return None;
    }
    let player_id = match json_get(v, "player_id") {
        Some(f) => match json_as_str(f) {
            Some(t) => match parse_u64(t) {
                Some(n) => if n <= i64::MAX as u64 {
                    n as i64
                } else {
                    return None;
                },
                None => { return None; },
            },
            None => { return None; },
        },
        None => { return None; },
    };
    let data = match json_get(v, "data") {
        Some(f) => f,
        None => { return None; },
    };
    let x = match json_get(data, "x") {
        Some(f) => match json_as_i64(f) {
            Some(n) => n,
            None => { return None; },
        },
        None => { return None; },
    };
    let y = match json_get(data, "y") {
        Some(f) => match json_as_i64(f) {
            Some(n) => n,
            None => { return None; },
        },
        None => { return None; },
    };
    Some(ClientUpdate { player_id, x, y })
}

/// Apply a client's movement update: patch x and y of the first player
/// with that id in every room, leaving every other field and record
/// unchanged.
pub fn apply_client_update(game: &mut GameState, update: ClientUpdate)
    ensures
        final(game)@ == spec_patch_game_players(
            old(game)@,
            spec_move_patch(update.player_id, update.x, update.y),
        ),
{
    let patch = PositionPatch {
        id: update.player_id,
        x: Some(update.x),
        y: Some(update.y),
        width: None,
        height: None,
        sprite_state: None,
    };
    handle_read::update_position(game, &patch);
}

impl handle_read {
    /// The client's inbound path: decode the message and run every
    /// handler whose key is present; text that does not decode is
    /// ignored and the shadow is left as it was.
    pub fn handle_read_msg(message: &str, game: &mut GameState)
        ensures
            final(game)@ == spec_client_state(old(game)@, message@),
    {
        match decode_envelope(message) {
            Some(env) => {
                Self::apply_envelope(game, env);
            }
            None => {}
        }
    }
}

/// The server's inbound path: a decoded update patches the named
/// player's position, a decoded envelope runs its handlers, and the
/// reply is the fixed acknowledgment; text that does not decode changes
/// nothing and is answered with the error envelope.
pub fn handle_read_server(message: &str, game: &mut GameState) -> (resp: String)
    ensures
        final(game)@ == spec_server_outcome(old(game)@, message@).0,
        resp@ == spec_server_outcome(old(game)@, message@).1,
        resp@ == spec_ok_wire() || resp@ == spec_error_wire(),
{
    let v = match parse_json(message) {
        Some(v) => v,
        None => { return error_response(); },
    };
    match decode_client_update(&v) {
        Some(u) => {
            apply_client_update(game, u);
            return ok_response();
        }
        None => {}
    }
    match decode_envelope(message) {
        Some(env) => {
            handle_read::apply_envelope(game, env);
            ok_response()
        }
        None => error_response(),
    }
}

} // verus!
