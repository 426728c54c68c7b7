//! The world-state store: rooms holding static objects, players and NPCs,
//! and the mutation rules applied to them by inbound messages.

use vstd::prelude::*;

verus! {

/// Cardinal direction a player or NPC sprite is facing.
#[derive(Clone, Copy, PartialEq, Eq, Structural, Debug)]
pub enum SpriteState {
    North,
    East,
    South,
    West,
}

impl SpriteState {
    /// The wire code of this direction.
    pub open spec fn spec_code(self) -> i64 {
        match self {
            SpriteState::North => 0,
            SpriteState::East => 1,
            SpriteState::South => 2,
            SpriteState::West => 3,
        }
    }

    /// The direction a wire code stands for, if any.
    pub open spec fn spec_from_code(c: i64) -> Option<SpriteState> {
        if c == 0 {
            Some(SpriteState::North)
        } else if c == 1 {
            Some(SpriteState::East)
        } else if c == 2 {
            Some(SpriteState::South)
        } else if c == 3 {
            Some(SpriteState::West)
        } else {
            None
        }
    }

    pub fn code(self) -> (c: i64)
        ensures
            c == self.spec_code(),
    {
        match self {
            SpriteState::North => 0,
            SpriteState::East => 1,
            SpriteState::South => 2,
            SpriteState::West => 3,
        }
    }

    pub fn from_code(c: i64) -> (s: Option<SpriteState>)
        ensures
            s == Self::spec_from_code(c),
    {
        if c == 0 {
            Some(SpriteState::North)
        } else if c == 1 {
            Some(SpriteState::East)
        } else if c == 2 {
            Some(SpriteState::South)
        } else if c == 3 {
            Some(SpriteState::West)
        } else {
            None
        }
    }
}

/// Codes and directions convert back and forth without loss.
pub proof fn lemma_sprite_code_round_trip(s: SpriteState, c: i64)
    ensures
        SpriteState::spec_from_code(s.spec_code()) == Some(s),
        SpriteState::spec_from_code(c) matches Some(d) ==> d.spec_code() == c,
{
}

/// A static rectangle in a room; id 0 is the room's outer bounding wall.
#[derive(Clone, Copy, PartialEq, Eq, Structural, Debug)]
pub struct GameObject {
    pub id: i64,
    pub x: i64,
    pub y: i64,
    pub width: i64,
    pub height: i64,
}

/// One player or NPC record: identity, rectangle, facing, cosmetics and
/// room membership.
#[derive(Clone, Copy, PartialEq, Eq, Structural, Debug)]
pub struct PlayerRecord {
    pub id: i64,
    pub x: i64,
    pub y: i64,
    pub width: i64,
    pub height: i64,
    pub sprite_state: SpriteState,
    pub skin: i64,
    pub shields: i64,
    pub room: i64,
}

/// A partial update for one record: absent fields are left unchanged.
#[derive(Clone, Copy, PartialEq, Eq, Debug)]
pub struct PositionPatch {
    pub id: i64,
    pub x: Option<i64>,
    pub y: Option<i64>,
    pub width: Option<i64>,
    pub height: Option<i64>,
    pub sprite_state: Option<SpriteState>,
}

/// One room: static objects plus the mutable player and NPC collections.
pub struct Room {
    pub room_id: i64,
    pub objects: Vec<GameObject>,
    pub players: Vec<PlayerRecord>,
    pub npcs: Vec<PlayerRecord>,
}

/// The mathematical value of a `Room`.
pub struct RoomView {
    pub room_id: i64,
    pub objects: Seq<GameObject>,
    pub players: Seq<PlayerRecord>,
    pub npcs: Seq<PlayerRecord>,
}

impl View for Room {
    type V = RoomView;

    open spec fn view(&self) -> RoomView {
        RoomView {
            room_id: self.room_id,
            objects: self.objects@,
            players: self.players@,
            npcs: self.npcs@,
        }
    }
}

/// The whole world: the set of rooms, fixed for a run, in a stable order.
pub struct GameState {
    pub rooms: Vec<Room>,
}

impl View for GameState {
    type V = Seq<RoomView>;

    open spec fn view(&self) -> Seq<RoomView> {
        self.rooms@.map_values(|r: Room| r@)
    }
}

/// Index of the first record with the given id at or after position `k`,
/// or -1 if there is none.
pub open spec fn find_from(ps: Seq<PlayerRecord>, id: i64, k: int) -> int
    decreases ps.len() - k,
{
    if k < 0 || k >= ps.len() {
        -1
    } else if ps[k].id == id {
        k
    } else {
        find_from(ps, id, k + 1)
    }
}

/// Index of the first record with the given id, or -1 if there is none.
pub open spec fn find_player_idx(ps: Seq<PlayerRecord>, id: i64) -> int {
    find_from(ps, id, 0)
}

/// What `find_from` returns: the first match at or after `k`, if any.
pub proof fn lemma_find_from(ps: Seq<PlayerRecord>, id: i64, k: int)
    requires
        0 <= k <= ps.len(),
    ensures
        find_from(ps, id, k) == -1 ==> forall|j: int| k <= j < ps.len() ==> ps[j].id != id,
        find_from(ps, id, k) != -1 ==> {
            let i = find_from(ps, id, k);
            &&& k <= i < ps.len()
            &&& ps[i].id == id
            &&& forall|j: int| k <= j < i ==> ps[j].id != id
        },
    decreases ps.len() - k,
{
    if k < ps.len() && ps[k].id != id {
        lemma_find_from(ps, id, k + 1);
    }
}

/// First index of the given id among the records, with its defining
/// properties, or -1 when the id is absent.
pub proof fn lemma_find_player_idx(ps: Seq<PlayerRecord>, id: i64)
    ensures
        find_player_idx(ps, id) == -1 ==> forall|j: int| 0 <= j < ps.len() ==> ps[j].id != id,
        find_player_idx(ps, id) != -1 ==> {
            let i = find_player_idx(ps, id);
            &&& 0 <= i < ps.len()
            &&& ps[i].id == id
            &&& forall|j: int| 0 <= j < i ==> ps[j].id != id
        },
{
    lemma_find_from(ps, id, 0);
}

/// A record after a partial update: present fields take the patch's
/// values, absent fields keep the record's.
pub open spec fn spec_patch_player(p: PlayerRecord, patch: PositionPatch) -> PlayerRecord {
    PlayerRecord {
        id: p.id,
        x: match patch.x { Some(v) => v, None => p.x },
        y: match patch.y { Some(v) => v, None => p.y },
        width: match patch.width { Some(v) => v, None => p.width },
        height: match patch.height { Some(v) => v, None => p.height },
        sprite_state: match patch.sprite_state { Some(v) => v, None => p.sprite_state },
        skin: p.skin,
        shields: p.shields,
        room: p.room,
    }
}

/// A player collection after an upsert: the first record with the same id
/// is replaced, or the record is appended when the id is new.
pub open spec fn spec_upsert_players(ps: Seq<PlayerRecord>, p: PlayerRecord) -> Seq<PlayerRecord> {
    let i = find_player_idx(ps, p.id);
    if i == -1 {
        ps.push(p)
    } else {
        ps.update(i, p)
    }
}

/// A record collection after a partial update: the first record with the
/// patch's id is patched; an absent id leaves the collection unchanged.
pub open spec fn spec_patch_players(ps: Seq<PlayerRecord>, patch: PositionPatch) -> Seq<PlayerRecord> {
    let i = find_player_idx(ps, patch.id);
    if i == -1 {
        ps
    } else {
        ps.update(i, spec_patch_player(ps[i], patch))
    }
}

/// A room after upserting a player into its player collection.
pub open spec fn spec_upsert_room(r: RoomView, p: PlayerRecord) -> RoomView {
    RoomView { players: spec_upsert_players(r.players, p), ..r }
}

/// A room after patching a player.
pub open spec fn spec_patch_room_players(r: RoomView, patch: PositionPatch) -> RoomView {
    RoomView { players: spec_patch_players(r.players, patch), ..r }
}

/// A room after patching an NPC.
pub open spec fn spec_patch_room_npcs(r: RoomView, patch: PositionPatch) -> RoomView {
    RoomView { npcs: spec_patch_players(r.npcs, patch), ..r }
}

/// The world after upserting a player into every room.
pub open spec fn spec_upsert_game(g: Seq<RoomView>, p: PlayerRecord) -> Seq<RoomView> {
    g.map_values(|r: RoomView| spec_upsert_room(r, p))
}

/// The world after patching a player in every room.
pub open spec fn spec_patch_game_players(g: Seq<RoomView>, patch: PositionPatch) -> Seq<RoomView> {
    g.map_values(|r: RoomView| spec_patch_room_players(r, patch))
}

/// The world after patching an NPC in every room.
pub open spec fn spec_patch_game_npcs(g: Seq<RoomView>, patch: PositionPatch) -> Seq<RoomView> {
    g.map_values(|r: RoomView| spec_patch_room_npcs(r, patch))
}

/// First index of the given id in a player collection, searching from the
/// front, or `None` when the id is absent.
pub fn find_player(ps: &Vec<PlayerRecord>, id: i64) -> (r: Option<usize>)
    ensures
        match r {
            Some(i) => i < ps@.len() && find_player_idx(ps@, id) == i,
            None => find_player_idx(ps@, id) == -1,
        },
{
    let mut i: usize = 0;
    while i < ps.len()
        invariant
            0 <= i <= ps@.len(),
            find_from(ps@, id, 0) == find_from(ps@, id, i as int),
        decreases ps@.len() - i,
    {
        if ps[i].id == id {
            return Some(i);
        }
        i = i + 1;
    }
    None
}

/// Index of the first room with the given id at or after position `k`,
/// or -1 if there is none.
pub open spec fn find_room_from(g: Seq<RoomView>, room_id: i64, k: int) -> int
    decreases g.len() - k,
{
    if k < 0 || k >= g.len() {
        -1
    } else if g[k].room_id == room_id {
        k
    } else {
        find_room_from(g, room_id, k + 1)
    }
}

/// An element-wise copy of a vector of plain values.
fn copy_vec<T: Copy>(v: &Vec<T>) -> (r: Vec<T>)
    ensures
        r@ == v@,
{
    let mut r: Vec<T> = Vec::new();
    let mut i: usize = 0;
    while i < v.len()
        invariant
            0 <= i <= v@.len(),
            r@ == v@.subrange(0, i as int),
        decreases v@.len() - i,
    {
        r.push(v[i]);
        proof {
            assert(v@.subrange(0, i as int + 1) =~= v@.subrange(0, i as int).push(v@[i as int]));
        }
        i = i + 1;
    }
    proof {
        assert(v@.subrange(0, v@.len() as int) =~= v@);
    }
    r
}

/// A read-only snapshot of one room for the rendering collaborator: a
/// copy of the first room with the given id, taken so the shared state
/// need only be held for the copy, never while drawing.
pub fn snapshot_room(game: &GameState, room_id: i64) -> (r: Option<Room>)
    ensures
        match r {
            Some(room) => {
                let i = find_room_from(game@, room_id, 0);
                i != -1 && room@ == game@[i]
            },
            None => find_room_from(game@, room_id, 0) == -1,
        },
{
    let mut i: usize = 0;
    while i < game.rooms.len()
        invariant
            0 <= i <= game@.len(),
            game@.len() == game.rooms@.len(),
            find_room_from(game@, room_id, 0) == find_room_from(game@, room_id, i as int),
        decreases game@.len() - i,
    {
        if game.rooms[i].room_id == room_id {
            let room = Room {
                room_id: game.rooms[i].room_id,
                objects: copy_vec(&game.rooms[i].objects),
                players: copy_vec(&game.rooms[i].players),
                npcs: copy_vec(&game.rooms[i].npcs),
            };
            return Some(room);
        }
        i = i + 1;
    }
    None
}

/// Upsert one player into one collection: replace the first record with
/// the same id, else append.
pub fn upsert_players(ps: &mut Vec<PlayerRecord>, p: PlayerRecord)
    ensures
        final(ps)@ == spec_upsert_players(old(ps)@, p),
{
    match find_player(ps, p.id) {
        Some(i) => {
            ps.remove(i);
            ps.insert(i, p);
            assert(ps@ =~= spec_upsert_players(old(ps)@, p));
        }
        None => {
            ps.push(p);
        }
    }
}

/// Patch the first record with the patch's id, if present.
pub fn patch_players(ps: &mut Vec<PlayerRecord>, patch: &PositionPatch)
    ensures
        final(ps)@ == spec_patch_players(old(ps)@, *patch),
{
    match find_player(ps, patch.id) {
        Some(i) => {
            let p = ps[i];
            let patched = PlayerRecord {
                id: p.id,
                x: match patch.x { Some(v) => v, None => p.x },
                y: match patch.y { Some(v) => v, None => p.y },
                width: match patch.width { Some(v) => v, None => p.width },
                height: match patch.height { Some(v) => v, None => p.height },
                sprite_state: match patch.sprite_state { Some(v) => v, None => p.sprite_state },
                skin: p.skin,
                shields: p.shields,
                room: p.room,
            };
            ps.remove(i);
            ps.insert(i, patched);
            assert(ps@ =~= spec_patch_players(old(ps)@, *patch));
        }
        None => {}
    }
}

} // verus!
