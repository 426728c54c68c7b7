//! The store's laws: what envelope dispatch and the mutation rules
//! guarantee across calls, proved once and for all inputs.

use vstd::prelude::*;
use crate::state::{
    PlayerRecord, PositionPatch, RoomView, find_from, find_player_idx, lemma_find_player_idx,
    spec_patch_game_players, spec_patch_player, spec_patch_players, spec_upsert_game,
    spec_upsert_players,
};
use crate::handlers::{EnvelopeView, spec_apply_envelope};

verus! {

/// Law: an envelope carrying exactly one recognized key has exactly that
/// key's effect on the world, and no other.
pub proof fn lemma_dispatch_single_key(g: Seq<RoomView>, e: EnvelopeView)
    ensures
        e.get_game is Some && e.get_player is None && e.update_position is None
            && e.update_npc_position is None ==> spec_apply_envelope(g, e) == e.get_game->0,
        e.get_player is Some && e.get_game is None && e.update_position is None
            && e.update_npc_position is None ==> spec_apply_envelope(g, e) == spec_upsert_game(
            g,
            e.get_player->0,
        ),
        e.update_position is Some && e.get_game is None && e.get_player is None
            && e.update_npc_position is None ==> spec_apply_envelope(g, e)
            == spec_patch_game_players(g, e.update_position->0),
        e.update_npc_position is Some && e.get_game is None && e.get_player is None
            && e.update_position is None ==> spec_apply_envelope(g, e)
            == crate::state::spec_patch_game_npcs(g, e.update_npc_position->0),
{
}

/// Law: an envelope carrying two recognized keys runs both handlers, in
/// enumeration order: `get_game`, `get_player`, `update_position`,
/// `update_npc_position`.  The clauses below name each pair in order.
pub proof fn lemma_dispatch_two_keys(g: Seq<RoomView>, e: EnvelopeView)
    ensures
        e.get_game is Some && e.get_player is Some && e.update_position is None
            && e.update_npc_position is None ==> spec_apply_envelope(g, e) == spec_upsert_game(
            e.get_game->0,
            e.get_player->0,
        ),
        e.get_game is Some && e.update_position is Some && e.get_player is None
            && e.update_npc_position is None ==> spec_apply_envelope(g, e)
            == spec_patch_game_players(e.get_game->0, e.update_position->0),
        e.get_game is Some && e.update_npc_position is Some && e.get_player is None
            && e.update_position is None ==> spec_apply_envelope(g, e)
            == crate::state::spec_patch_game_npcs(e.get_game->0, e.update_npc_position->0),
        e.get_player is Some && e.update_position is Some && e.get_game is None
            && e.update_npc_position is None ==> spec_apply_envelope(g, e)
            == spec_patch_game_players(spec_upsert_game(g, e.get_player->0), e.update_position->0),
        e.get_player is Some && e.update_npc_position is Some && e.get_game is None
            && e.update_position is None ==> spec_apply_envelope(g, e)
            == crate::state::spec_patch_game_npcs(
            spec_upsert_game(g, e.get_player->0),
            e.update_npc_position->0,
        ),
        e.update_position is Some && e.update_npc_position is Some && e.get_game is None
            && e.get_player is None ==> spec_apply_envelope(g, e)
            == crate::state::spec_patch_game_npcs(
            spec_patch_game_players(g, e.update_position->0),
            e.update_npc_position->0,
        ),
{
}

/// Law: a `get_game` envelope replaces the shadow exactly with the
/// payload's tree, whatever stood there before; re-applying the identical
/// payload changes nothing more.
pub proof fn lemma_get_game_replace_idempotent(
    g1: Seq<RoomView>,
    g2: Seq<RoomView>,
    e: EnvelopeView,
)
    requires
        e.get_game is Some,
        e.get_player is None,
        e.update_position is None,
        e.update_npc_position is None,
    ensures
        spec_apply_envelope(g1, e) == spec_apply_envelope(g2, e),
        spec_apply_envelope(spec_apply_envelope(g1, e), e) == spec_apply_envelope(g1, e),
{
}

/// Law: a partial update leaves every absent field of the matching record
/// unchanged, leaves every other record untouched, and changes nothing
/// when no record matches.
pub proof fn lemma_patch_preserves_absent_fields(ps: Seq<PlayerRecord>, patch: PositionPatch)
    ensures
        spec_patch_players(ps, patch).len() == ps.len(),
        find_player_idx(ps, patch.id) == -1 ==> spec_patch_players(ps, patch) == ps,
        find_player_idx(ps, patch.id) != -1 ==> {
            let i = find_player_idx(ps, patch.id);
            let q = spec_patch_players(ps, patch)[i];
            &&& q.id == ps[i].id
            &&& (patch.x is None ==> q.x == ps[i].x)
            &&& (patch.y is None ==> q.y == ps[i].y)
            &&& (patch.width is None ==> q.width == ps[i].width)
            &&& (patch.height is None ==> q.height == ps[i].height)
            &&& (patch.sprite_state is None ==> q.sprite_state == ps[i].sprite_state)
            &&& q.skin == ps[i].skin
            &&& q.shields == ps[i].shields
            &&& q.room == ps[i].room
        },
        forall|j: int|
            0 <= j < ps.len() && j != find_player_idx(ps, patch.id)
                ==> #[trigger] spec_patch_players(ps, patch)[j] == ps[j],
{
    lemma_find_player_idx(ps, patch.id);
}

/// Law: upserting a record whose id is absent appends exactly one entry;
/// upserting a present id replaces the first match in place, keeping the
/// collection's length and every other entry.
pub proof fn lemma_upsert_append_or_replace(ps: Seq<PlayerRecord>, p: PlayerRecord)
    ensures
        find_player_idx(ps, p.id) == -1 ==> spec_upsert_players(ps, p) == ps.push(p),
        find_player_idx(ps, p.id) == -1 ==> spec_upsert_players(ps, p).len() == ps.len() + 1,
        find_player_idx(ps, p.id) != -1 ==> {
            let i = find_player_idx(ps, p.id);
            &&& spec_upsert_players(ps, p).len() == ps.len()
            &&& spec_upsert_players(ps, p)[i] == p
            &&& forall|j: int|
                0 <= j < ps.len() && j != i ==> #[trigger] spec_upsert_players(ps, p)[j] == ps[j]
        },
{
    lemma_find_player_idx(ps, p.id);
}

/// Whether a collection holds at most one record per identifier.
pub open spec fn spec_unique_ids(ps: Seq<PlayerRecord>) -> bool {
    forall|i: int, j: int| 0 <= i < j < ps.len() ==> #[trigger] ps[i].id != #[trigger] ps[j].id
}

/// Law: an upsert keeps at most one record per identifier in the
/// collection.
pub proof fn lemma_upsert_preserves_unique_ids(ps: Seq<PlayerRecord>, p: PlayerRecord)
    requires
        spec_unique_ids(ps),
    ensures
        spec_unique_ids(spec_upsert_players(ps, p)),
{
    lemma_find_player_idx(ps, p.id);
    let i = find_player_idx(ps, p.id);
    if i == -1 {
        assert forall|a: int, b: int|
            0 <= a < b < ps.push(p).len() implies #[trigger] ps.push(p)[a].id != #[trigger] ps.push(
            p,
        )[b].id by {
            if b == ps.len() {
                assert(ps[a].id != p.id);
            }
        }
    }
}

/// Law: a partial update never duplicates an identifier: it changes no
/// record's id at all.
pub proof fn lemma_patch_preserves_unique_ids(ps: Seq<PlayerRecord>, patch: PositionPatch)
    requires
        spec_unique_ids(ps),
    ensures
        spec_unique_ids(spec_patch_players(ps, patch)),
{
    lemma_find_player_idx(ps, patch.id);
}

/// Law: no envelope handler creates or removes a room, and none changes
/// a room's identity or its static objects — the room set is fixed for
/// a run; only `get_game` replaces the tree as a whole.
pub proof fn lemma_handlers_keep_the_room_set(g: Seq<RoomView>, p: PlayerRecord, patch: PositionPatch)
    ensures
        spec_upsert_game(g, p).len() == g.len(),
        spec_patch_game_players(g, patch).len() == g.len(),
        crate::state::spec_patch_game_npcs(g, patch).len() == g.len(),
        forall|j: int| 0 <= j < g.len() ==> #[trigger] spec_upsert_game(g, p)[j].room_id
            == g[j].room_id && spec_upsert_game(g, p)[j].objects == g[j].objects,
        forall|j: int| 0 <= j < g.len() ==> #[trigger] spec_patch_game_players(g, patch)[j].room_id
            == g[j].room_id && spec_patch_game_players(g, patch)[j].objects == g[j].objects,
        forall|j: int| 0 <= j < g.len() ==> #[trigger] crate::state::spec_patch_game_npcs(g, patch)[
            j].room_id == g[j].room_id && crate::state::spec_patch_game_npcs(g, patch)[j].objects
            == g[j].objects,
{
}

/// Two collections of equal length whose records carry the same ids
/// position by position are searched alike.
proof fn lemma_find_from_same_ids(
    ps1: Seq<PlayerRecord>,
    ps2: Seq<PlayerRecord>,
    id: i64,
    k: int,
)
    requires
        ps1.len() == ps2.len(),
        forall|j: int| 0 <= j < ps1.len() ==> ps1[j].id == #[trigger] ps2[j].id,
    ensures
        find_from(ps1, id, k) == find_from(ps2, id, k),
    decreases ps1.len() - k,
{
    if 0 <= k < ps1.len() {
        lemma_find_from_same_ids(ps1, ps2, id, k + 1);
    }
}

/// Law, collection level: two partial updates for different ids both end
/// up reflected, whichever order they are applied in.
pub proof fn lemma_patch_players_commute(
    ps: Seq<PlayerRecord>,
    pa: PositionPatch,
    pb: PositionPatch,
)
    requires
        pa.id != pb.id,
    ensures
        spec_patch_players(spec_patch_players(ps, pa), pb) == spec_patch_players(
            spec_patch_players(ps, pb),
            pa,
        ),
        find_player_idx(ps, pa.id) != -1 ==> spec_patch_players(spec_patch_players(ps, pa), pb)[
            find_player_idx(ps, pa.id)] == spec_patch_player(ps[find_player_idx(ps, pa.id)], pa),
        find_player_idx(ps, pb.id) != -1 ==> spec_patch_players(spec_patch_players(ps, pa), pb)[
            find_player_idx(ps, pb.id)] == spec_patch_player(ps[find_player_idx(ps, pb.id)], pb),
{
    let ia = find_player_idx(ps, pa.id);
    let ib = find_player_idx(ps, pb.id);
    lemma_find_player_idx(ps, pa.id);
    lemma_find_player_idx(ps, pb.id);
    let psa = spec_patch_players(ps, pa);
    let psb = spec_patch_players(ps, pb);
    assert(forall|j: int| 0 <= j < ps.len() ==> psa[j].id == #[trigger] ps[j].id);
    assert(forall|j: int| 0 <= j < ps.len() ==> psb[j].id == #[trigger] ps[j].id);
    lemma_find_from_same_ids(psa, ps, pb.id, 0);
    lemma_find_from_same_ids(psb, ps, pa.id, 0);
    if ia != -1 && ib != -1 {
        assert(ia != ib);
        assert(spec_patch_players(psa, pb) =~= spec_patch_players(psb, pa));
    } else {
        assert(spec_patch_players(psa, pb) =~= spec_patch_players(psb, pa));
    }
}

/// Law, collection level: two partial updates for the same id never mix:
/// when the second patches every field the first patches, the outcome is
/// exactly the second update alone, never a blend of the two.
pub proof fn lemma_patch_players_overwrite(
    ps: Seq<PlayerRecord>,
    pa: PositionPatch,
    pb: PositionPatch,
)
    requires
        pa.id == pb.id,
        pa.x is Some ==> pb.x is Some,
        pa.y is Some ==> pb.y is Some,
        pa.width is Some ==> pb.width is Some,
        pa.height is Some ==> pb.height is Some,
        pa.sprite_state is Some ==> pb.sprite_state is Some,
    ensures
        spec_patch_players(spec_patch_players(ps, pa), pb) == spec_patch_players(ps, pb),
{
    let i = find_player_idx(ps, pa.id);
    lemma_find_player_idx(ps, pa.id);
    if i != -1 {
        let psa = spec_patch_players(ps, pa);
        assert(forall|j: int| 0 <= j < ps.len() ==> psa[j].id == #[trigger] ps[j].id);
        lemma_find_from_same_ids(psa, ps, pb.id, 0);
        assert(spec_patch_players(psa, pb) =~= spec_patch_players(ps, pb));
    }
}

/// Law, world level: two updates for different ids, dispatched one after
/// the other in either order, are both reflected: the order does not
/// matter, and in every room each id's record carries its own update's
/// values, untouched by the other's.
pub proof fn lemma_updates_for_distinct_ids_commute(
    g: Seq<RoomView>,
    pa: PositionPatch,
    pb: PositionPatch,
)
    requires
        pa.id != pb.id,
    ensures
        spec_patch_game_players(spec_patch_game_players(g, pa), pb) == spec_patch_game_players(
            spec_patch_game_players(g, pb),
            pa,
        ),
        forall|j: int|
            #![trigger g[j].players]
            0 <= j < g.len() && find_player_idx(g[j].players, pa.id) != -1
                ==> spec_patch_game_players(spec_patch_game_players(g, pa), pb)[j].players[
                find_player_idx(g[j].players, pa.id)] == spec_patch_player(
                g[j].players[find_player_idx(g[j].players, pa.id)],
                pa,
            ),
        forall|j: int|
            #![trigger g[j].players]
            0 <= j < g.len() && find_player_idx(g[j].players, pb.id) != -1
                ==> spec_patch_game_players(spec_patch_game_players(g, pa), pb)[j].players[
                find_player_idx(g[j].players, pb.id)] == spec_patch_player(
                g[j].players[find_player_idx(g[j].players, pb.id)],
                pb,
            ),
{
    assert forall|j: int| 0 <= j < g.len() implies #[trigger] spec_patch_game_players(
        spec_patch_game_players(g, pa),
        pb,
    )[j] == spec_patch_game_players(spec_patch_game_players(g, pb), pa)[j]
        && (find_player_idx(g[j].players, pa.id) != -1 ==> spec_patch_game_players(
        spec_patch_game_players(g, pa),
        pb,
    )[j].players[find_player_idx(g[j].players, pa.id)] == spec_patch_player(
        g[j].players[find_player_idx(g[j].players, pa.id)],
        pa,
    )) && (find_player_idx(g[j].players, pb.id) != -1 ==> spec_patch_game_players(
        spec_patch_game_players(g, pa),
        pb,
    )[j].players[find_player_idx(g[j].players, pb.id)] == spec_patch_player(
        g[j].players[find_player_idx(g[j].players, pb.id)],
        pb,
    )) by {
        lemma_patch_players_commute(g[j].players, pa, pb);
    }
    assert(spec_patch_game_players(spec_patch_game_players(g, pa), pb) =~= spec_patch_game_players(
        spec_patch_game_players(g, pb),
        pa,
    ));
}

/// Law, world level: two updates for the same id leave each room's
/// matching record exactly as the later update wrote it, when the later
/// update covers the earlier one's fields.
pub proof fn lemma_updates_for_same_id_overwrite(
    g: Seq<RoomView>,
    pa: PositionPatch,
    pb: PositionPatch,
)
    requires
        pa.id == pb.id,
        pa.x is Some ==> pb.x is Some,
        pa.y is Some ==> pb.y is Some,
        pa.width is Some ==> pb.width is Some,
        pa.height is Some ==> pb.height is Some,
        pa.sprite_state is Some ==> pb.sprite_state is Some,
    ensures
        spec_patch_game_players(spec_patch_game_players(g, pa), pb) == spec_patch_game_players(
            g,
            pb,
        ),
{
    assert forall|j: int| 0 <= j < g.len() implies #[trigger] spec_patch_game_players(
        spec_patch_game_players(g, pa),
        pb,
    )[j] == spec_patch_game_players(g, pb)[j] by {
        lemma_patch_players_overwrite(g[j].players, pa, pb);
    }
    assert(spec_patch_game_players(spec_patch_game_players(g, pa), pb) =~= spec_patch_game_players(
        g,
        pb,
    ));
}

} // verus!
