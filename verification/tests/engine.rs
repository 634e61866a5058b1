use underworld_core::actions::action::{
    Action, AttackNpc, CastSpellOnPlayer, ExitRoom, LookAtNpc, LootFixture,
};
use underworld_core::components::character::Character;
use underworld_core::components::damage::{Attack, AttackEffect, Defense, Health};
use underworld_core::components::effects::Effects;
use underworld_core::components::fixtures::{Fixture, FixtureType};
use underworld_core::components::games::game_state::{
    GameState, Knowledge, NpcKnowledgeEntry, World,
};
use underworld_core::components::identifier::Identifier;
use underworld_core::components::inventory::Inventory;
use underworld_core::components::items::{CharacterItem, FixtureItem, Item, ItemType};
use underworld_core::components::non_player::NonPlayer;
use underworld_core::components::player::PlayerCharacter;
use underworld_core::components::rooms::exit::ExitMap;
use underworld_core::components::rooms::fixture_position::FixturePosition;
use underworld_core::components::rooms::npc_position::NpcPosition;
use underworld_core::components::rooms::room::{Dimensions, Room, RoomType};
use underworld_core::components::size::Size;
use underworld_core::components::species::Species;
use underworld_core::components::spells::{LearnedSpell, Spell, SpellMemory, SpellName};
use underworld_core::components::stats::Stats;
use underworld_core::components::weapons::WeaponType;
use underworld_core::components::wearables::WearableType;
use underworld_core::errors::Errors;
use underworld_core::events::event::Event;
use underworld_core::game::Game;
use underworld_core::utils::rolls::Roller;

fn uuid_text(n: u64) -> String {
    format!("00000000-0000-0000-0000-{:012x}", n)
}

fn bare_character(current: i32, max: i32) -> Character {
    Character {
        stats: Stats { health: Health { current, max } },
        species: Species::Goblin,
        life_modifier: None,
        inventory: Inventory { equipment: Vec::new() },
        current_effects: Effects {
            resurrection_aura: false,
            retribution_aura: None,
            shield_aura: None,
        },
        spell_memory: SpellMemory { spells: Vec::new() },
    }
}

fn weapon_item(id: u128, num_rolls: usize, modifier: i32) -> Item {
    Item {
        identifier: Identifier { id, name: None },
        item_type: ItemType::Weapon(WeaponType::Dagger),
        material: None,
        descriptors: Vec::new(),
        attack: Some(Attack { num_rolls, modifier, effects: Vec::new() }),
        defense: None,
    }
}

fn wearable_item(id: u128, damage_resistance: i32) -> Item {
    Item {
        identifier: Identifier { id, name: None },
        item_type: ItemType::Wearable(WearableType::Shirt),
        material: None,
        descriptors: Vec::new(),
        attack: None,
        defense: Some(Defense { damage_resistance }),
    }
}

fn room_with(
    id: u128,
    npc_positions: Vec<NpcPosition>,
    fixture_positions: Vec<FixturePosition>,
) -> Room {
    Room {
        identifier: Identifier { id, name: None },
        room_type: RoomType::Cave,
        descriptors: Vec::new(),
        dimensions: Dimensions { height: 3, width: 5, length: 5 },
        fixture_positions,
        npc_positions,
        flavour: None,
    }
}

fn player_with(character: Character) -> PlayerCharacter {
    PlayerCharacter { identifier: Identifier { id: 1000, name: None }, character }
}

fn single_npc_state(npc: NonPlayer) -> GameState {
    let npc_position = NpcPosition {
        group_descriptor: None,
        npcs: vec![npc],
        position_descriptor: None,
    };
    GameState {
        current_room_id: 100,
        world: World {
            rooms: vec![room_with(100, vec![npc_position], Vec::new())],
            exit_graph: Vec::new(),
        },
        npc_knowledge: Vec::new(),
        player_knows_all: false,
    }
}

fn npc_health(state: &GameState, npc_id: u128) -> i32 {
    for room in &state.world.rooms {
        for position in &room.npc_positions {
            for npc in &position.npcs {
                if npc.identifier.id == npc_id {
                    return npc.character.stats.health.current;
                }
            }
        }
    }
    panic!("no such npc");
}

#[test]
fn heal_spell_heals_up_to_its_damage_amount() {
    let mut character = bare_character(50, 80);
    character.spell_memory.spells.push(LearnedSpell {
        id: 5,
        spell: Spell {
            name: SpellName::Heal,
            attack: Some(Attack { num_rolls: 1, modifier: 4, effects: Vec::new() }),
            defense: None,
        },
    });
    assert_eq!(10, character.spell_memory.spells[0].spell.damage());
    let state = GameState {
        current_room_id: 100,
        world: World { rooms: vec![room_with(100, Vec::new(), Vec::new())], exit_graph: Vec::new() },
        npc_knowledge: Vec::new(),
        player_knows_all: false,
    };
    let mut game = Game { state, player: player_with(character) };
    let mut roller = Roller::from_seed(1);
    let action = Action::CastSpellOnPlayer(CastSpellOnPlayer { spell_id: uuid_text(5) });
    let events = game.handle_action(&action, &mut roller).expect("the spell should resolve");
    assert_eq!(1, events.len());
    assert_eq!(60, game.player.character.stats.health.current);
}

#[test]
fn unknown_spell_is_reported() {
    let state = GameState {
        current_room_id: 100,
        world: World { rooms: vec![room_with(100, Vec::new(), Vec::new())], exit_graph: Vec::new() },
        npc_knowledge: Vec::new(),
        player_knows_all: false,
    };
    let mut game = Game { state, player: player_with(bare_character(10, 10)) };
    let mut roller = Roller::from_seed(1);
    let action = Action::CastSpellOnPlayer(CastSpellOnPlayer { spell_id: uuid_text(77) });
    let result = game.handle_action(&action, &mut roller);
    assert!(matches!(result, Err(Errors::SpellNotFound(77))));
}

#[test]
fn malformed_id_is_reported() {
    let state = GameState {
        current_room_id: 100,
        world: World { rooms: vec![room_with(100, Vec::new(), Vec::new())], exit_graph: Vec::new() },
        npc_knowledge: Vec::new(),
        player_knows_all: false,
    };
    let mut game = Game { state, player: player_with(bare_character(10, 10)) };
    let mut roller = Roller::from_seed(1);
    let action = Action::ExitRoom(ExitRoom { exit_id: String::from("not an id") });
    let result = game.handle_action(&action, &mut roller);
    assert!(matches!(result, Err(Errors::InvalidIdFormat(_))));
}

#[test]
fn attack_applies_rolls_minus_defense() {
    let mut attacker = bare_character(40, 40);
    attacker.inventory.equipment.push(CharacterItem {
        item: weapon_item(11, 1, 2),
        is_hidden: false,
        at_the_ready: true,
        is_multiple: false,
    });
    let mut defender = bare_character(30, 30);
    defender.inventory.equipment.push(CharacterItem {
        item: wearable_item(12, 2),
        is_hidden: false,
        at_the_ready: true,
        is_multiple: false,
    });
    let npc = NonPlayer { identifier: Identifier { id: 7, name: None }, character: defender };
    let mut game = Game { state: single_npc_state(npc), player: player_with(attacker) };
    let mut roller = Roller::from_seed(9);
    let action = Action::AttackNpc(AttackNpc { npc_id: uuid_text(7) });
    let events = game.handle_action(&action, &mut roller).expect("the attack should resolve");
    assert_eq!(1, events.len());
    let damage = match &events[0] {
        Event::NpcHit(hit) => hit.damage,
        other => panic!("unexpected event {:?}", other),
    };
    // one d6 plus 2: the roll total stays within its bounds
    assert!((3..=8).contains(&damage));
    let expected = (30 - (damage - 2)).clamp(0, 30);
    assert_eq!(expected, npc_health(&game.state, 7));
}

#[test]
fn attacking_a_missing_npc_is_reported() {
    let npc = NonPlayer {
        identifier: Identifier { id: 7, name: None },
        character: bare_character(30, 30),
    };
    let mut game = Game { state: single_npc_state(npc), player: player_with(bare_character(9, 9)) };
    let mut roller = Roller::from_seed(2);
    let action = Action::AttackNpc(AttackNpc { npc_id: uuid_text(99) });
    let result = game.handle_action(&action, &mut roller);
    assert!(matches!(result, Err(Errors::NpcNotFound(99))));
}

#[test]
fn exiting_a_dangling_exit_generates_the_room_once() {
    let state = GameState {
        current_room_id: 100,
        world: World {
            rooms: vec![room_with(100, Vec::new(), Vec::new())],
            exit_graph: vec![ExitMap {
                exit_id: 50,
                left_room_id: Some(100),
                right_room_id: None,
            }],
        },
        npc_knowledge: Vec::new(),
        player_knows_all: false,
    };
    let mut game = Game { state, player: player_with(bare_character(10, 10)) };
    let mut roller = Roller::from_seed(21);
    let action = Action::ExitRoom(ExitRoom { exit_id: uuid_text(50) });

    let events = game.handle_action(&action, &mut roller).expect("the exit should resolve");
    assert_eq!(2, events.len());
    let generated_id = match &events[0] {
        Event::RoomGenerated(generated) => {
            assert_eq!(50, generated.entrance_id);
            generated.room.identifier.id
        },
        other => panic!("unexpected event {:?}", other),
    };
    match &events[1] {
        Event::RoomExited(exited) => {
            assert_eq!(50, exited.exit_id);
            assert_eq!(100, exited.old_room_id);
            assert_eq!(generated_id, exited.new_room_id);
        },
        other => panic!("unexpected event {:?}", other),
    }
    assert_eq!(generated_id, game.state.current_room_id);
    assert!(game.state.world.rooms.iter().any(|r| r.identifier.id == generated_id));

    // step back into the old room and traverse the same exit again:
    // the destination is the same and nothing is regenerated
    game.state.current_room_id = 100;
    let second = game.handle_action(&action, &mut roller).expect("the exit should resolve again");
    assert_eq!(1, second.len());
    match &second[0] {
        Event::RoomExited(exited) => assert_eq!(generated_id, exited.new_room_id),
        other => panic!("unexpected event {:?}", other),
    }
}

#[test]
fn exiting_through_an_unknown_exit_is_reported() {
    let state = GameState {
        current_room_id: 100,
        world: World { rooms: vec![room_with(100, Vec::new(), Vec::new())], exit_graph: Vec::new() },
        npc_knowledge: Vec::new(),
        player_knows_all: false,
    };
    let mut game = Game { state, player: player_with(bare_character(10, 10)) };
    let mut roller = Roller::from_seed(4);
    let action = Action::ExitRoom(ExitRoom { exit_id: uuid_text(50) });
    let result = game.handle_action(&action, &mut roller);
    assert!(matches!(result, Err(Errors::ExitNotFound(50))));
}

#[test]
fn looting_moves_only_the_asked_for_items() {
    let fixture = Fixture {
        identifier: Identifier { id: 60, name: None },
        fixture_type: FixtureType::Chest,
        material: None,
        size: Size::Average,
        descriptors: Vec::new(),
        items: vec![
            FixtureItem { item: weapon_item(70, 1, 0) },
            FixtureItem { item: weapon_item(71, 1, 1) },
        ],
    };
    let fixture_position = FixturePosition {
        group_descriptor: None,
        fixtures: vec![fixture],
        position_descriptors: Vec::new(),
    };
    let state = GameState {
        current_room_id: 100,
        world: World {
            rooms: vec![room_with(100, Vec::new(), vec![fixture_position])],
            exit_graph: Vec::new(),
        },
        npc_knowledge: Vec::new(),
        player_knows_all: false,
    };
    let mut game = Game { state, player: player_with(bare_character(10, 10)) };
    let mut roller = Roller::from_seed(5);
    let action = Action::LootFixture(LootFixture {
        fixture_id: uuid_text(60),
        item_ids: vec![uuid_text(70), String::from("garbage"), uuid_text(99)],
    });
    let events = game.handle_action(&action, &mut roller).expect("the loot should resolve");
    assert_eq!(1, events.len());
    match &events[0] {
        Event::ItemTakenFromFixture(taken) => {
            assert_eq!(60, taken.fixture_id);
            assert_eq!(70, taken.item_id);
        },
        other => panic!("unexpected event {:?}", other),
    }
    assert!(game
        .player
        .character
        .inventory
        .equipment
        .iter()
        .any(|ci| ci.item.identifier.id == 70));
    let room = &game.state.world.rooms[0];
    let remaining = &room.fixture_positions[0].fixtures[0].items;
    assert_eq!(1, remaining.len());
    assert_eq!(71, remaining[0].item.identifier.id);
}

#[test]
fn looting_with_a_repeated_id_takes_the_item_once() {
    let fixture = Fixture {
        identifier: Identifier { id: 60, name: None },
        fixture_type: FixtureType::Chest,
        material: None,
        size: Size::Average,
        descriptors: Vec::new(),
        items: vec![FixtureItem { item: weapon_item(70, 1, 0) }],
    };
    let fixture_position = FixturePosition {
        group_descriptor: None,
        fixtures: vec![fixture],
        position_descriptors: Vec::new(),
    };
    let state = GameState {
        current_room_id: 100,
        world: World {
            rooms: vec![room_with(100, Vec::new(), vec![fixture_position])],
            exit_graph: Vec::new(),
        },
        npc_knowledge: Vec::new(),
        player_knows_all: false,
    };
    let mut game = Game { state, player: player_with(bare_character(10, 10)) };
    let mut roller = Roller::from_seed(5);
    let action = Action::LootFixture(LootFixture {
        fixture_id: uuid_text(60),
        item_ids: vec![uuid_text(70), uuid_text(70)],
    });
    let events = game.handle_action(&action, &mut roller).expect("the loot should resolve");
    assert_eq!(1, events.len());
    assert_eq!(
        1,
        game.player
            .character
            .inventory
            .equipment
            .iter()
            .filter(|ci| ci.item.identifier.id == 70)
            .count()
    );
}

#[test]
fn looting_an_unknown_fixture_is_reported() {
    let state = GameState {
        current_room_id: 100,
        world: World { rooms: vec![room_with(100, Vec::new(), Vec::new())], exit_graph: Vec::new() },
        npc_knowledge: Vec::new(),
        player_knows_all: false,
    };
    let mut game = Game { state, player: player_with(bare_character(10, 10)) };
    let mut roller = Roller::from_seed(6);
    let action = Action::LootFixture(LootFixture { fixture_id: uuid_text(61), item_ids: Vec::new() });
    let result = game.handle_action(&action, &mut roller);
    assert!(matches!(result, Err(Errors::FixtureNotFound(61))));
}

#[test]
fn unknown_npcs_are_viewed_fully_redacted() {
    let mut character = bare_character(30, 30);
    character.inventory.equipment.push(CharacterItem {
        item: weapon_item(11, 1, 0),
        is_hidden: true,
        at_the_ready: false,
        is_multiple: false,
    });
    let npc = NonPlayer {
        identifier: Identifier { id: 7, name: Some(String::from("Grak")) },
        character,
    };
    let mut game = Game { state: single_npc_state(npc), player: player_with(bare_character(9, 9)) };
    let mut roller = Roller::from_seed(8);
    let action = Action::LookAtNpc(LookAtNpc { npc_id: uuid_text(7) });
    let events = game.handle_action(&action, &mut roller).expect("the look should resolve");
    assert_eq!(1, events.len());
    let view = match &events[0] {
        Event::NpcViewed(viewed) => &viewed.npc_view,
        other => panic!("unexpected event {:?}", other),
    };
    assert!(view.identifier.name.is_none());
    assert!(!view.identifier.name_known);
    assert!(view.character.stats.health.is_none());
    assert!(view.character.species.is_none());
    assert!(view.character.life_modifier.is_none());
    assert!(view.character.inventory.is_none());
    assert!(view.character.spell_memory.is_none());
}

#[test]
fn one_knowledge_flag_exposes_exactly_that_field() {
    let npc = NonPlayer {
        identifier: Identifier { id: 7, name: Some(String::from("Grak")) },
        character: bare_character(30, 30),
    };
    let mut state = single_npc_state(npc);
    state.npc_knowledge.push(NpcKnowledgeEntry {
        npc_id: 7,
        knowledge: Knowledge { knows_health: true, ..Default::default() },
    });
    let mut game = Game { state, player: player_with(bare_character(9, 9)) };
    let mut roller = Roller::from_seed(8);
    let action = Action::LookAtNpc(LookAtNpc { npc_id: uuid_text(7) });
    let events = game.handle_action(&action, &mut roller).expect("the look should resolve");
    let view = match &events[0] {
        Event::NpcViewed(viewed) => &viewed.npc_view,
        other => panic!("unexpected event {:?}", other),
    };
    assert_eq!(Some(30), view.character.stats.health.map(|h| h.current));
    assert!(view.identifier.name.is_none());
    assert!(view.character.species.is_none());
    assert!(view.character.life_modifier.is_none());
    assert!(view.character.inventory.is_none());
}

#[test]
fn viewing_an_npc_records_its_looks_as_known() {
    let npc = NonPlayer {
        identifier: Identifier { id: 7, name: None },
        character: bare_character(30, 30),
    };
    let mut game = Game { state: single_npc_state(npc), player: player_with(bare_character(9, 9)) };
    let mut roller = Roller::from_seed(8);
    let action = Action::LookAtNpc(LookAtNpc { npc_id: uuid_text(7) });
    game.handle_action(&action, &mut roller).expect("the look should resolve");
    let knowledge = game.state.npc_knowledge(7);
    assert!(knowledge.knows_species);
    assert!(knowledge.knows_life_modifier);
    assert!(!knowledge.knows_health);
    assert!(!knowledge.knows_name);

    // looking again exposes the species now that it is known
    let events = game.handle_action(&action, &mut roller).expect("the look should resolve");
    let view = match &events[0] {
        Event::NpcViewed(viewed) => &viewed.npc_view,
        other => panic!("unexpected event {:?}", other),
    };
    assert_eq!(Some(Species::Goblin), view.character.species);
}

#[test]
fn attack_rolls_stay_within_their_bounds() {
    let attack = Attack { num_rolls: 2, modifier: 1, effects: Vec::new() };
    let mut roller = Roller::from_seed(13);
    for _ in 0..50 {
        let roll = attack.attack_roll(&mut roller);
        assert!((3..=13).contains(&roll));
    }
}

#[test]
fn crushing_attacks_are_amplified_by_half() {
    let attack = Attack { num_rolls: 1, modifier: 0, effects: vec![AttackEffect::Crushing] };
    let mut roller = Roller::from_seed(14);
    for _ in 0..50 {
        let roll = attack.attack_roll(&mut roller);
        // a d6 roll of b yields b + b/2
        assert!([1, 3, 4, 6, 7, 9].contains(&roll));
    }
}

#[test]
fn health_is_clamped_at_the_floor_and_the_ceiling() {
    let mut character = bare_character(5, 20);
    character.damage(50);
    assert_eq!(0, character.stats.health.current);
    character.heal(500);
    assert_eq!(20, character.stats.health.current);
    character.heal_to_max();
    assert_eq!(20, character.stats.health.current);
    character.kill();
    assert_eq!(0, character.stats.health.current);
    assert!(character.is_dead());
}
