use underworld_core::components::fixtures::{Fixture, FixtureType};
use underworld_core::components::identifier::Identifier;
use underworld_core::components::non_player::NonPlayerViewArgs;
use underworld_core::components::rooms::fixture_position::FixturePosition;
use underworld_core::components::rooms::fixture_position_descriptor::FixturePositionDescriptor;
use underworld_core::components::rooms::group_descriptor::GroupDescriptor;
use underworld_core::components::rooms::npc_position::NpcPosition;
use underworld_core::components::rooms::npc_position_descriptor::NpcPositionDescriptor;
use underworld_core::components::size::Size;
use underworld_core::components::species::Species;
use underworld_core::generators::characters::CharacterPrototype;
use underworld_core::generators::non_players::NonPlayerPrototype;
use underworld_core::systems::view::npc_position::look_at;
use underworld_core::utils::rolls::Roller;

fn bare_fixture(id: u128, fixture_type: FixtureType) -> Fixture {
    Fixture {
        identifier: Identifier { id, name: None },
        fixture_type,
        material: None,
        size: Size::Average,
        descriptors: Vec::new(),
        items: Vec::new(),
    }
}

#[test]
fn fixture_position_display() {
    let table = bare_fixture(1, FixtureType::Table);
    let chair = bare_fixture(2, FixtureType::Chair);
    let fixture_position = FixturePosition {
        group_descriptor: Some(GroupDescriptor::A),
        fixtures: vec![table, chair.clone(), chair],
        position_descriptors: vec![FixturePositionDescriptor::IsInTheCorner],
    };

    assert_eq!("a table and chairs is in the corner", fixture_position.describe());
}

#[test]
fn npc_position_display() {
    let goblin_prototype = NonPlayerPrototype {
        name: None,
        character_generator: CharacterPrototype::overloaded_character(Species::Goblin),
    };
    let mut roller = Roller::from_seed(7);
    let npcs = vec![
        goblin_prototype.generate(&mut roller),
        goblin_prototype.generate(&mut roller),
    ];

    let npc_position = NpcPosition {
        npcs,
        group_descriptor: Some(GroupDescriptor::AGangOf),
        position_descriptor: Some(NpcPositionDescriptor::InCornerStands),
    };

    assert_eq!(
        "in the corner stands a gang of goblins",
        look_at(&npc_position, &NonPlayerViewArgs::default(), true).describe()
    );
}

#[test]
fn display_as_sentence_capitalizes_and_ends_with_a_stop() {
    let goblin_prototype = NonPlayerPrototype {
        name: None,
        character_generator: CharacterPrototype::overloaded_character(Species::Goblin),
    };
    let mut roller = Roller::from_seed(11);
    let npc_position = NpcPosition {
        npcs: vec![goblin_prototype.generate(&mut roller)],
        group_descriptor: None,
        position_descriptor: Some(NpcPositionDescriptor::IsStandingAround),
    };
    let view = look_at(&npc_position, &NonPlayerViewArgs::default(), true);
    assert_eq!("Goblin is standing around.", view.display_as_sentence());
}

#[test]
fn species_counts_keep_first_seen_order() {
    let goblin = NonPlayerPrototype {
        name: None,
        character_generator: CharacterPrototype::overloaded_character(Species::Goblin),
    };
    let kobold = NonPlayerPrototype {
        name: None,
        character_generator: CharacterPrototype::overloaded_character(Species::Kobold),
    };
    let mut roller = Roller::from_seed(3);
    let npc_position = NpcPosition {
        npcs: vec![
            kobold.generate(&mut roller),
            goblin.generate(&mut roller),
            kobold.generate(&mut roller),
        ],
        group_descriptor: None,
        position_descriptor: None,
    };
    let view = look_at(&npc_position, &NonPlayerViewArgs::default(), true);
    assert_eq!("kobolds and goblin", view.species_description());
}
