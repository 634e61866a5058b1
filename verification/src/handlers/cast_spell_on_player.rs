use vstd::prelude::*;

use crate::actions::action::CastSpellOnPlayer;
use crate::components::damage::{Attack, AttackM, Defense};
use crate::components::player::{PlayerCharacter, PlayerCharacterM};
use crate::components::spells::{SpellM, SpellName};
use crate::errors::{Errors, ErrorsM};
use crate::events::event::{
    Event, EventM, PlayerGainsResurrectionAura, PlayerGainsRetributionAura, PlayerGainsShieldAura,
    PlayerHealed, PlayerHit,
};
use crate::utils::ids::{parse_id, uuid_of_text};

verus! {

/// The retribution aura's attack when the spell defines none: two
/// six-sided dice with no modifier.
pub open spec fn spec_default_retribution_attack() -> AttackM {
    AttackM { num_rolls: 2, modifier: 0, effects: Seq::<crate::components::damage::AttackEffect>::empty() }
}

/// The shield aura's defense when the spell defines none.
pub open spec fn spec_default_shield_defense() -> Defense {
    Defense { damage_resistance: 6 }
}

/// The events casting a spell on the player produces, by spell family:
/// direct damage, healing, or one of the three aura grants.
pub open spec fn spec_cast_events(spell: SpellM, caster_id: u128) -> Seq<EventM> {
    match spell.name {
        SpellName::ElectricBlast | SpellName::RagingFireball => seq![
            EventM::PlayerHit { attacker_id: caster_id, damage: spell.damage() as i32 },
        ],
        SpellName::Heal | SpellName::QuickHeal => seq![
            EventM::PlayerHealed { damage_healed: spell.damage() as i32 },
        ],
        SpellName::Phoenix => seq![EventM::PlayerGainsResurrectionAura],
        SpellName::Retribution => seq![
            EventM::PlayerGainsRetributionAura {
                attack: match spell.attack {
                    Some(a) => a,
                    None => spec_default_retribution_attack(),
                },
            },
        ],
        SpellName::TinyShield => seq![
            EventM::PlayerGainsShieldAura {
                defense: match spell.defense {
                    Some(d) => d,
                    None => spec_default_shield_defense(),
                },
            },
        ],
    }
}

/// What a successful resolution promises: the spell id parsed, the
/// first matching learned spell was found, and the events are exactly
/// that spell's.
pub open spec fn cast_spell_ok(
    action: CastSpellOnPlayer,
    player: PlayerCharacterM,
    events: Seq<EventM>,
) -> bool {
    &&& uuid_of_text(action.spell_id@) matches Some(spell_id)
    &&& exists|i: int|
        {
            &&& 0 <= i < player.character.spell_memory.len()
            &&& (#[trigger] player.character.spell_memory[i]).id == spell_id
            &&& forall|j: int|
                0 <= j < i ==> (#[trigger] player.character.spell_memory[j]).id != spell_id
            &&& events == spec_cast_events(
                player.character.spell_memory[i].spell,
                player.identifier.id,
            )
        }
}

/// When each failure is owed: a malformed id, or an id no learned
/// spell carries.
pub open spec fn cast_spell_err(
    action: CastSpellOnPlayer,
    player: PlayerCharacterM,
    e: ErrorsM,
) -> bool {
    match e {
        ErrorsM::InvalidIdFormat(text) => text == action.spell_id@ && uuid_of_text(
            action.spell_id@,
        ) is None,
        ErrorsM::SpellNotFound(id) => uuid_of_text(action.spell_id@) == Some(id) && forall|i: int|
            0 <= i < player.character.spell_memory.len() ==> (
            #[trigger] player.character.spell_memory[i]).id != id,
        _ => false,
    }
}

/// Resolve casting a spell on the player: look the spell up in the
/// caster's memory and emit the event its family calls for.
pub fn handle(action: &CastSpellOnPlayer, player: &PlayerCharacter) -> (r: Result<
    Vec<Event>,
    Errors,
>)
    requires
        player.model().character.wf(),
    ensures
        match r {
            Ok(events) => cast_spell_ok(*action, player.model(), events@.map_values(|e: Event| e.model())),
            Err(e) => cast_spell_err(*action, player.model(), e.model()),
        },
{
    let spell_id = match parse_id(action.spell_id.as_str()) {
        Some(id) => id,
        None => {
            return Err(Errors::InvalidIdFormat(action.spell_id.clone()));
        },
    };
    let learned_spell = match player.character.find_spell(spell_id) {
        Some(spell) => spell,
        None => {
            proof {
                assert(forall|i: int|
                    0 <= i < player.model().character.spell_memory.len() ==> (#[trigger] player
                        .model().character.spell_memory[i]).id != spell_id);
            }
            return Err(Errors::SpellNotFound(spell_id));
        },
    };
    let ghost mem = player.model().character.spell_memory;
    let ghost found: int = choose|i: int|
        {
            &&& 0 <= i < player.character.spell_memory.spells@.len()
            &&& (#[trigger] player.character.spell_memory.spells@[i]) == *learned_spell
            &&& forall|j: int|
                0 <= j < i ==> (#[trigger] player.character.spell_memory.spells@[j]).id != spell_id
        };
    proof {
        assert(mem[found] == learned_spell.model());
        assert forall|j: int| 0 <= j < found implies (#[trigger] mem[j]).id != spell_id by {
            assert(player.character.spell_memory.spells@[j].id != spell_id);
        }
        assert(learned_spell.model().wf());
    }
    let mut events: Vec<Event> = Vec::new();
    match learned_spell.spell.name {
        SpellName::ElectricBlast | SpellName::RagingFireball => {
            let damage = learned_spell.spell.damage();
            events.push(
                Event::PlayerHit(PlayerHit { attacker_id: player.identifier.id, damage }),
            );
        },
        SpellName::Heal | SpellName::QuickHeal => {
            let damage_healed = learned_spell.spell.damage();
            events.push(Event::PlayerHealed(PlayerHealed { damage_healed }));
        },
        SpellName::Phoenix => {
            events.push(Event::PlayerGainsResurrectionAura(PlayerGainsResurrectionAura {}));
        },
        SpellName::Retribution => {
            let attack = match &learned_spell.spell.attack {
                Some(a) => a.clone(),
                None => Attack { num_rolls: 2, modifier: 0, effects: Vec::new() },
            };
            proof {
                assert(attack.model() =~= (match learned_spell.model().spell.attack {
                    Some(a) => a,
                    None => spec_default_retribution_attack(),
                }));
            }
            events.push(Event::PlayerGainsRetributionAura(PlayerGainsRetributionAura { attack }));
        },
        SpellName::TinyShield => {
            let defense = match &learned_spell.spell.defense {
                Some(d) => *d,
                None => Defense { damage_resistance: 6 },
            };
            events.push(Event::PlayerGainsShieldAura(PlayerGainsShieldAura { defense }));
        },
    }
    proof {
        assert(events@.map_values(|e: Event| e.model()) =~= spec_cast_events(
            mem[found].spell,
            player.model().identifier.id,
        ));
        assert(cast_spell_ok(
            *action,
            player.model(),
            events@.map_values(|e: Event| e.model()),
        )) by {
            assert(uuid_of_text(action.spell_id@) == Some(spell_id) && 0 <= found < mem.len() && (
            #[trigger] mem[found]).id == spell_id && (forall|j: int|
                0 <= j < found ==> (#[trigger] mem[j]).id != spell_id) && events@.map_values(
                |e: Event| e.model(),
            ) == spec_cast_events(mem[found].spell, player.model().identifier.id));
        }
    }
    Ok(events)
}

} // verus!
