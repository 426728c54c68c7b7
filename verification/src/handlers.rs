//! Message handlers: how each envelope key mutates the world state, and
//! the dispatch order when one envelope carries several keys.

use vstd::prelude::*;
use crate::state::{
    GameState, PlayerRecord, PositionPatch, RoomView, patch_players, spec_patch_game_npcs,
    spec_patch_game_players, spec_patch_room_npcs, spec_patch_room_players, spec_upsert_game,
    spec_upsert_room, upsert_players,
};

verus! {

/// A decoded message envelope.  Each recognized top-level key that was
/// present in the wire map becomes a `Some` field; a handler runs for
/// every present key, in the field order below.
pub struct Envelope {
    pub get_game: Option<GameState>,
    pub get_player: Option<PlayerRecord>,
    pub update_position: Option<PositionPatch>,
    pub update_npc_position: Option<PositionPatch>,
}

/// The mathematical value of an `Envelope`.
pub struct EnvelopeView {
    pub get_game: Option<Seq<RoomView>>,
    pub get_player: Option<PlayerRecord>,
    pub update_position: Option<PositionPatch>,
    pub update_npc_position: Option<PositionPatch>,
}

impl View for Envelope {
    type V = EnvelopeView;

    open spec fn view(&self) -> EnvelopeView {
        EnvelopeView {
            get_game: match self.get_game {
                Some(g) => Some(g@),
                None => None,
            },
            get_player: self.get_player,
            update_position: self.update_position,
            update_npc_position: self.update_npc_position,
        }
    }
}

/// The world after one envelope: every handler whose key is present runs,
/// in the order `get_game`, `get_player`, `update_position`,
/// `update_npc_position`.
pub open spec fn spec_apply_envelope(g: Seq<RoomView>, e: EnvelopeView) -> Seq<RoomView> {
    let g1 = match e.get_game {
        Some(tree) => tree,
        None => g,
    };
    let g2 = match e.get_player {
        Some(p) => spec_upsert_game(g1, p),
        None => g1,
    };
    let g3 = match e.update_position {
        Some(patch) => spec_patch_game_players(g2, patch),
        None => g2,
    };
    match e.update_npc_position {
        Some(patch) => spec_patch_game_npcs(g3, patch),
        None => g3,
    }
}

/// The handler set for server-to-client state messages.
#[allow(non_camel_case_types)]
pub struct handle_read;

impl handle_read {
    /// Replace the local shadow wholesale with the payload's tree.
    pub fn get_game_handler(game: &mut GameState, tree: GameState)
        ensures
            final(game)@ == tree@,
    {
        *game = tree;
    }

    /// Upsert the player into every room's player collection: replace the
    /// first record with the same id, else append.  Every room is
    /// touched, not only the one named by the record's `room` field —
    /// the protocol scopes the upsert to the whole tree, and that
    /// behaviour is kept here deliberately.
    pub fn get_player_handler(game: &mut GameState, p: PlayerRecord)
        ensures
            final(game)@ == spec_upsert_game(old(game)@, p),
    {
        let ghost g0 = game.rooms@;
        let mut i: usize = 0;
        while i < game.rooms.len()
            invariant
                0 <= i <= game.rooms@.len(),
                game.rooms@.len() == g0.len(),
                forall|j: int| 0 <= j < i ==> game.rooms@[j]@ == spec_upsert_room(g0[j]@, p),
                forall|j: int| i <= j < g0.len() ==> game.rooms@[j] == g0[j],
            decreases g0.len() - i,
        {
            let mut room = game.rooms.remove(i);
            upsert_players(&mut room.players, p);
            game.rooms.insert(i, room);
            i = i + 1;
        }
        assert(game@ =~= spec_upsert_game(old(game)@, p));
    }

    /// Patch the first player with the patch's id in every room; absent
    /// fields are left unchanged, an absent id leaves the room unchanged.
    pub fn update_position(game: &mut GameState, patch: &PositionPatch)
        ensures
            final(game)@ == spec_patch_game_players(old(game)@, *patch),
    {
        let ghost g0 = game.rooms@;
        let mut i: usize = 0;
        while i < game.rooms.len()
            invariant
                0 <= i <= game.rooms@.len(),
                game.rooms@.len() == g0.len(),
                forall|j: int| 0 <= j < i ==> game.rooms@[j]@ == spec_patch_room_players(
                    g0[j]@,
                    *patch,
                ),
                forall|j: int| i <= j < g0.len() ==> game.rooms@[j] == g0[j],
            decreases g0.len() - i,
        {
            let mut room = game.rooms.remove(i);
            patch_players(&mut room.players, patch);
            game.rooms.insert(i, room);
            i = i + 1;
        }
        assert(game@ =~= spec_patch_game_players(old(game)@, *patch));
    }

    /// Patch the first NPC with the patch's id in every room, as
    /// `update_position` does for players.
    pub fn update_npc_position(game: &mut GameState, patch: &PositionPatch)
        ensures
            final(game)@ == spec_patch_game_npcs(old(game)@, *patch),
    {
        let ghost g0 = game.rooms@;
        let mut i: usize = 0;
        while i < game.rooms.len()
            invariant
                0 <= i <= game.rooms@.len(),
                game.rooms@.len() == g0.len(),
                forall|j: int| 0 <= j < i ==> game.rooms@[j]@ == spec_patch_room_npcs(
                    g0[j]@,
                    *patch,
                ),
                forall|j: int| i <= j < g0.len() ==> game.rooms@[j] == g0[j],
            decreases g0.len() - i,
        {
            let mut room = game.rooms.remove(i);
            patch_players(&mut room.npcs, patch);
            game.rooms.insert(i, room);
            i = i + 1;
        }
        assert(game@ =~= spec_patch_game_npcs(old(game)@, *patch));
    }

    /// Run every handler whose key is present, in enumeration order.
    pub fn apply_envelope(game: &mut GameState, env: Envelope)
        ensures
            final(game)@ == spec_apply_envelope(old(game)@, env@),
    {
        match env.get_game {
            Some(tree) => {
                Self::get_game_handler(game, tree);
            }
            None => {}
        }
        match env.get_player {
            Some(p) => {
                Self::get_player_handler(game, p);
            }
            None => {}
        }
        match env.update_position {
            Some(patch) => {
                Self::update_position(game, &patch);
            }
            None => {}
        }
        match env.update_npc_position {
            Some(patch) => {
                Self::update_npc_position(game, &patch);
            }
            None => {}
        }
    }
}

} // verus!
