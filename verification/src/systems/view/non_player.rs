use vstd::prelude::*;

use super::character;
use super::identifier;
use crate::components::character::CharacterViewArgs;
use crate::components::non_player::{NonPlayer, NonPlayerM, NonPlayerView, NonPlayerViewM};

verus! {

/// The redacted projection of an NPC: its name is exposed only when
/// known, its character follows the observer's arguments.
pub open spec fn spec_look_at_npc(
    npc: NonPlayerM,
    args: CharacterViewArgs,
    knows_name: bool,
    knows_all: bool,
) -> NonPlayerViewM {
    NonPlayerViewM {
        identifier: identifier::spec_identifier_view(npc.identifier, knows_name || knows_all),
        character: character::spec_look_at_character(npc.character, args, knows_all),
    }
}

/// Project an NPC for an observer with the given knowledge.
pub fn look_at(
    npc: &NonPlayer,
    args: &CharacterViewArgs,
    knows_name: bool,
    knows_all: bool,
) -> (r: NonPlayerView)
    ensures
        r.model() == spec_look_at_npc(npc.model(), *args, knows_name, knows_all),
{
    NonPlayerView {
        identifier: identifier::to_view(&npc.identifier, knows_name || knows_all),
        character: character::look_at(&npc.character, args, knows_all),
    }
}

} // verus!
