use vstd::prelude::*;

use super::fixture_position;
use super::identifier;
use super::npc_position;
use crate::components::character::CharacterViewArgs;
use crate::components::non_player::NonPlayerViewArgs;
use crate::components::rooms::fixture_position::FixturePositionView;
use crate::components::rooms::npc_position::{NpcPositionM, NpcPositionView};
use crate::components::rooms::room::{Room, RoomDescriptor, RoomM};
use crate::components::rooms::room_view::{RoomView, RoomViewArgs, RoomViewM};

verus! {

/// The arguments a quick glance around a room uses: species and life
/// modifiers are plain to see, nothing else is.
pub open spec fn spec_quick_look_args() -> NonPlayerViewArgs {
    NonPlayerViewArgs {
        character_args: CharacterViewArgs {
            knows_health: false,
            knows_species: true,
            knows_life_modifier: true,
            knows_inventory: false,
            knows_hidden_in_inventory: false,
            knows_packed_in_inventory: false,
        },
        knows_name: false,
    }
}

/// The arguments a deliberate look around a room uses, driven by what
/// the observer has learned.
pub open spec fn spec_look_at_args(args: RoomViewArgs) -> NonPlayerViewArgs {
    NonPlayerViewArgs {
        character_args: CharacterViewArgs {
            knows_health: args.knows_character_health,
            knows_species: true,
            knows_life_modifier: true,
            knows_inventory: true,
            knows_hidden_in_inventory: args.can_see_hidden,
            knows_packed_in_inventory: args.can_see_packed,
        },
        knows_name: args.knows_names,
    }
}

/// The redacted projection of a whole room: the room's own features
/// are plain to see, its NPCs follow the observer's knowledge.
pub open spec fn spec_room_view(room: RoomM, args: NonPlayerViewArgs, knows_all: bool) -> RoomViewM {
    RoomViewM {
        identifier: identifier::spec_identifier_view(room.identifier, true),
        room_type: room.room_type,
        descriptors: room.descriptors,
        dimensions: room.dimensions,
        fixture_positions: room.fixture_positions,
        npc_positions: room.npc_positions.map_values(
            |p: NpcPositionM| npc_position::spec_look_at_position(p, args, knows_all),
        ),
        flavour: room.flavour,
    }
}

/// Project a room for an observer with the given NPC arguments.
pub fn view(room: &Room, npc_position_args: NonPlayerViewArgs, knows_all: bool) -> (r: RoomView)
    ensures
        r.model() == spec_room_view(room.model(), npc_position_args, knows_all),
{
    let mut fixture_positions: Vec<FixturePositionView> = Vec::new();
    let mut i: usize = 0;
    while i < room.fixture_positions.len()
        invariant
            i <= room.fixture_positions@.len(),
            fixture_positions@.len() == i,
            forall|j: int|
                0 <= j < i ==> (#[trigger] fixture_positions@[j]).model()
                    == room.fixture_positions@[j].model(),
        decreases room.fixture_positions@.len() - i,
    {
        fixture_positions.push(fixture_position::look_at(&room.fixture_positions[i]));
        i = i + 1;
    }
    let mut npc_positions: Vec<NpcPositionView> = Vec::new();
    let mut k: usize = 0;
    while k < room.npc_positions.len()
        invariant
            k <= room.npc_positions@.len(),
            npc_positions@.len() == k,
            forall|j: int|
                0 <= j < k ==> (#[trigger] npc_positions@[j]).model()
                    == npc_position::spec_look_at_position(
                    room.npc_positions@[j].model(),
                    npc_position_args,
                    knows_all,
                ),
        decreases room.npc_positions@.len() - k,
    {
        npc_positions.push(npc_position::look_at(&room.npc_positions[k], &npc_position_args, knows_all));
        k = k + 1;
    }
    let mut descriptors: Vec<RoomDescriptor> = Vec::new();
    let mut d: usize = 0;
    while d < room.descriptors.len()
        invariant
            d <= room.descriptors@.len(),
            descriptors@ =~= room.descriptors@.take(d as int),
        decreases room.descriptors@.len() - d,
    {
        descriptors.push(room.descriptors[d]);
        d = d + 1;
    }
    let flavour = match &room.flavour {
        Some(f) => Some(f.clone()),
        None => None,
    };
    let r = RoomView {
        identifier: identifier::to_view(&room.identifier, true),
        room_type: room.room_type,
        descriptors,
        dimensions: room.dimensions,
        fixture_positions,
        npc_positions,
        flavour,
    };
    proof {
        assert(r.model().descriptors =~= room.model().descriptors);
        assert(r.model().fixture_positions =~= room.model().fixture_positions);
        assert(r.model().npc_positions =~= spec_room_view(
            room.model(),
            npc_position_args,
            knows_all,
        ).npc_positions);
        assert(r.model() =~= spec_room_view(room.model(), npc_position_args, knows_all));
    }
    r
}

/// A quick glance around the room: no names, no health, no inventories.
pub fn quick_look(room: &Room) -> (r: RoomView)
    ensures
        r.model() == spec_room_view(room.model(), spec_quick_look_args(), false),
{
    let npc_position_args = NonPlayerViewArgs {
        character_args: CharacterViewArgs {
            knows_health: false,
            knows_species: true,
            knows_life_modifier: true,
            knows_inventory: false,
            knows_hidden_in_inventory: false,
            knows_packed_in_inventory: false,
        },
        knows_name: false,
    };
    view(room, npc_position_args, false)
}

/// A deliberate look around the room, driven by what the observer has
/// learned; `knows_all` bypasses all redaction.
pub fn look_at(room: &Room, args: RoomViewArgs, knows_all: bool) -> (r: RoomView)
    ensures
        r.model() == spec_room_view(room.model(), spec_look_at_args(args), knows_all),
{
    let npc_position_args = NonPlayerViewArgs {
        character_args: CharacterViewArgs {
            knows_health: args.knows_character_health,
            knows_species: true,
            knows_life_modifier: true,
            knows_inventory: true,
            knows_hidden_in_inventory: args.can_see_hidden,
            knows_packed_in_inventory: args.can_see_packed,
        },
        knows_name: args.knows_names,
    };
    view(room, npc_position_args, knows_all)
}

} // verus!
