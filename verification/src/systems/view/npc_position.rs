use vstd::prelude::*;

use super::non_player;
use crate::components::non_player::{NonPlayerM, NonPlayerView, NonPlayerViewArgs};
use crate::components::rooms::npc_position::{
    NpcPosition, NpcPositionM, NpcPositionView, NpcPositionViewM,
};

verus! {

/// The redacted projection of a whole NPC group.
pub open spec fn spec_look_at_position(
    position: NpcPositionM,
    args: NonPlayerViewArgs,
    knows_all: bool,
) -> NpcPositionViewM {
    NpcPositionViewM {
        group_descriptor: position.group_descriptor,
        npcs: position.npcs.map_values(
            |n: NonPlayerM|
                non_player::spec_look_at_npc(n, args.character_args, args.knows_name, knows_all),
        ),
        position_descriptor: position.position_descriptor,
    }
}

/// Project an NPC group for an observer with the given knowledge.
pub fn look_at(position: &NpcPosition, args: &NonPlayerViewArgs, knows_all: bool) -> (r:
    NpcPositionView)
    ensures
        r.model() == spec_look_at_position(position.model(), *args, knows_all),
{
    let mut npcs: Vec<NonPlayerView> = Vec::new();
    let mut i: usize = 0;
    while i < position.npcs.len()
        invariant
            i <= position.npcs@.len(),
            npcs@.len() == i,
            forall|j: int|
                0 <= j < i ==> (#[trigger] npcs@[j]).model() == non_player::spec_look_at_npc(
                    position.npcs@[j].model(),
                    args.character_args,
                    args.knows_name,
                    knows_all,
                ),
        decreases position.npcs@.len() - i,
    {
        npcs.push(non_player::look_at(&position.npcs[i], &args.character_args, args.knows_name, knows_all));
        i = i + 1;
    }
    let r = NpcPositionView {
        group_descriptor: position.group_descriptor,
        npcs,
        position_descriptor: position.position_descriptor,
    };
    proof {
        assert(r.model().npcs =~= spec_look_at_position(position.model(), *args, knows_all).npcs);
        assert(r.model() =~= spec_look_at_position(position.model(), *args, knows_all));
    }
    r
}

} // verus!
