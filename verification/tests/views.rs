use underworld_core::components::character::CharacterViewArgs;
use underworld_core::components::identifier::Identifier;
use underworld_core::components::non_player::NonPlayerViewArgs;
use underworld_core::components::rooms::npc_position::NpcPosition;
use underworld_core::components::rooms::room::{Dimensions, Room, RoomDescriptor, RoomType};
use underworld_core::components::rooms::room_view::RoomViewArgs;
use underworld_core::components::species::Species;
use underworld_core::generators::characters::{generate_wearable, CharacterPrototype};
use underworld_core::generators::non_players::NonPlayerPrototype;
use underworld_core::generators::rooms::random_room;
use underworld_core::components::wearables::WearableType;
use underworld_core::systems::view::room::{look_at, quick_look, view};
use underworld_core::utils::rolls::Roller;

fn goblin_room() -> Room {
    let prototype = NonPlayerPrototype {
        name: Some(String::from("Grak")),
        character_generator: CharacterPrototype::overloaded_character(Species::Goblin),
    };
    let mut roller = Roller::from_seed(17);
    Room {
        identifier: Identifier { id: 100, name: None },
        room_type: RoomType::Cavern,
        descriptors: Vec::new(),
        dimensions: Dimensions { height: 3, width: 4, length: 4 },
        fixture_positions: Vec::new(),
        npc_positions: vec![NpcPosition {
            group_descriptor: None,
            npcs: vec![prototype.generate(&mut roller)],
            position_descriptor: None,
        }],
        flavour: None,
    }
}

#[test]
fn quick_look_shows_species_but_no_names_or_health() {
    let room = goblin_room();
    let room_view = quick_look(&room);
    assert_eq!(100, room_view.identifier.id);
    let npc = &room_view.npc_positions[0].npcs[0];
    assert_eq!(Some(Species::Goblin), npc.character.species);
    assert!(npc.identifier.name.is_none());
    assert!(npc.character.stats.health.is_none());
    assert!(npc.character.inventory.is_none());
}

#[test]
fn a_deliberate_look_exposes_what_the_arguments_allow() {
    let room = goblin_room();
    let args = RoomViewArgs {
        can_see_hidden: false,
        can_see_packed: false,
        knows_character_health: true,
        knows_names: true,
    };
    let room_view = look_at(&room, args, false);
    let npc = &room_view.npc_positions[0].npcs[0];
    assert_eq!(Some(String::from("Grak")), npc.identifier.name);
    assert!(npc.character.stats.health.is_some());
    assert!(npc.character.inventory.is_some());
}

#[test]
fn omniscience_bypasses_all_redaction() {
    let room = goblin_room();
    let args = NonPlayerViewArgs {
        character_args: CharacterViewArgs {
            knows_health: false,
            knows_species: false,
            knows_life_modifier: false,
            knows_inventory: false,
            knows_hidden_in_inventory: false,
            knows_packed_in_inventory: false,
        },
        knows_name: false,
    };
    let room_view = view(&room, args, true);
    let npc = &room_view.npc_positions[0].npcs[0];
    assert!(npc.character.stats.health.is_some());
    assert_eq!(Some(Species::Goblin), npc.character.species);
    assert!(npc.character.inventory.is_some());
    assert!(npc.character.spell_memory.is_some());
}

#[test]
fn generated_rooms_are_filled_as_promised() {
    let mut roller = Roller::from_seed(29);
    for _ in 0..10 {
        let room = random_room(&mut roller);
        assert!(matches!(
            room.room_type,
            RoomType::Cave | RoomType::Cavern | RoomType::Crypt | RoomType::Dungeon
        ));
        assert_eq!(vec![RoomDescriptor::Dark], room.descriptors);
        assert!((4..=12).contains(&room.dimensions.width));
        assert!((4..=12).contains(&room.dimensions.length));
        assert!((2..=5).contains(&room.dimensions.height));
        assert_eq!(1, room.fixture_positions.len());
        assert_eq!(1, room.fixture_positions[0].fixtures.len());
        assert_eq!(1, room.npc_positions.len());
        let npcs = &room.npc_positions[0].npcs;
        assert!((1..=3).contains(&npcs.len()));
        for npc in npcs.iter() {
            assert_eq!(npcs[0].character.species, npc.character.species);
        }
    }
}

#[test]
fn generated_wearables_use_materials_from_the_kind_table() {
    let mut roller = Roller::from_seed(23);
    for _ in 0..20 {
        let item = generate_wearable(WearableType::Crown, &mut roller);
        let material = item.material.expect("a crown has materials to pick from");
        assert!(WearableType::Crown.possible_materials().contains(&material));
    }
}
