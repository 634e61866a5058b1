use vstd::prelude::*;

use super::characters::CharacterPrototype;
use super::non_players::NonPlayerPrototype;
use crate::components::fixtures::{Fixture, FixtureType};
use crate::components::identifier::Identifier;
use crate::components::non_player::NonPlayer;
use crate::components::rooms::fixture_position::FixturePosition;
use crate::components::rooms::fixture_position_descriptor::FixturePositionDescriptor;
use crate::components::rooms::group_descriptor::GroupDescriptor;
use crate::components::rooms::npc_position::NpcPosition;
use crate::components::rooms::npc_position_descriptor::NpcPositionDescriptor;
use crate::components::rooms::room::{Dimensions, Room, RoomDescriptor, RoomType};
use crate::components::size::Size;
use crate::components::species::Species;
use crate::utils::ids::random_id;
use crate::utils::rolls::Roller;

verus! {

/// What every generated room looks like, whatever the dice said: a
/// rolled type and measurements within fixed bounds, the dark
/// descriptor, one furnished spot holding a single bare table, and one
/// group of one to three creatures of a single rolled species,
/// standing around.
pub open spec fn generated_room_shape(room: crate::components::rooms::room::RoomM) -> bool {
    &&& room.room_type == RoomType::Cave || room.room_type == RoomType::Cavern || room.room_type
        == RoomType::Crypt || room.room_type == RoomType::Dungeon
    &&& room.descriptors == seq![RoomDescriptor::Dark]
    &&& 4 <= room.dimensions.width <= 12
    &&& 4 <= room.dimensions.length <= 12
    &&& 2 <= room.dimensions.height <= 5
    &&& room.flavour is None
    &&& room.fixture_positions.len() == 1
    &&& ({
        let furnished = room.fixture_positions[0];
        &&& furnished.group_descriptor == Some(GroupDescriptor::A)
        &&& furnished.position_descriptors == seq![FixturePositionDescriptor::IsInTheCorner]
        &&& furnished.fixtures.len() == 1
        &&& furnished.fixtures[0].fixture_type == FixtureType::Table
        &&& furnished.fixtures[0].items.len() == 0
    })
    &&& room.npc_positions.len() == 1
    &&& ({
        let creatures = room.npc_positions[0];
        &&& creatures.group_descriptor == Some(GroupDescriptor::AGangOf)
        &&& creatures.position_descriptor == Some(NpcPositionDescriptor::AreStandingAround)
        &&& 1 <= creatures.npcs.len() <= 3
        &&& (creatures.npcs[0].character.species == Species::Goblin
            || creatures.npcs[0].character.species == Species::Kobold
            || creatures.npcs[0].character.species == Species::Orc)
        &&& forall|i: int|
            0 <= i < creatures.npcs.len() ==> (#[trigger] creatures.npcs[i]).character.species
                == creatures.npcs[0].character.species
    })
}

/// Generate a room to stand behind a freshly traversed exit. Only the
/// dice decide the outcome, and every outcome is a filled room of the
/// generated shape.
pub fn random_room(roller: &mut Roller) -> (r: Room)
    ensures
        r.model().wf(),
        generated_room_shape(r.model()),
{
    let type_pick = roller.roll_range(0, 3);
    let room_type = if type_pick == 0 {
        RoomType::Cave
    } else if type_pick == 1 {
        RoomType::Cavern
    } else if type_pick == 2 {
        RoomType::Crypt
    } else {
        RoomType::Dungeon
    };
    let species_pick = roller.roll_range(0, 2);
    let species = if species_pick == 0 {
        Species::Goblin
    } else if species_pick == 1 {
        Species::Kobold
    } else {
        Species::Orc
    };
    let npc_prototype = NonPlayerPrototype {
        name: None,
        character_generator: CharacterPrototype::overloaded_character(species),
    };
    let npc_count = roller.roll_range(1, 3);
    let mut npcs: Vec<NonPlayer> = Vec::new();
    let mut i: u64 = 0;
    while i < npc_count
        invariant
            1 <= npc_count <= 3,
            i <= npc_count,
            npcs@.len() == i,
            npc_prototype.character_generator.species == species,
            forall|j: int|
                0 <= j < npcs@.len() ==> (#[trigger] npcs@[j]).model().wf() && npcs@[j].model()
                    .character.species == species,
        decreases npc_count - i,
    {
        npcs.push(npc_prototype.generate(roller));
        i = i + 1;
    }
    let npc_position = NpcPosition {
        group_descriptor: Some(GroupDescriptor::AGangOf),
        npcs,
        position_descriptor: Some(NpcPositionDescriptor::AreStandingAround),
    };
    let table = Fixture {
        identifier: Identifier { id: random_id(), name: None },
        fixture_type: FixtureType::Table,
        material: None,
        size: Size::Average,
        descriptors: Vec::new(),
        items: Vec::new(),
    };
    let fixture_position = FixturePosition {
        group_descriptor: Some(GroupDescriptor::A),
        fixtures: vec![table],
        position_descriptors: vec![FixturePositionDescriptor::IsInTheCorner],
    };
    let width = roller.roll_range(4, 12) as u32;
    let length = roller.roll_range(4, 12) as u32;
    let height = roller.roll_range(2, 5) as u32;
    let r = Room {
        identifier: Identifier { id: random_id(), name: None },
        room_type,
        descriptors: vec![RoomDescriptor::Dark],
        dimensions: Dimensions { height, width, length },
        fixture_positions: vec![fixture_position],
        npc_positions: vec![npc_position],
        flavour: None,
    };
    proof {
        assert(r.model().wf());
        assert(r.model().descriptors =~= seq![RoomDescriptor::Dark]);
        assert(r.model().fixture_positions[0].position_descriptors =~= seq![
            FixturePositionDescriptor::IsInTheCorner,
        ]);
    }
    r
}

} // verus!
