use vstd::prelude::*;

use crate::components::character::Character;
use crate::components::damage::{Attack, AttackEffect, Defense, Health};
use crate::components::effects::Effects;
use crate::components::identifier::Identifier;
use crate::components::inventory::{readied_wearables_compatible, Inventory};
use crate::components::items::{CharacterItem, Item, ItemType};
use crate::components::life_modifier::LifeModifier;
use crate::components::material::Material;
use crate::components::species::Species;
use crate::components::spells::SpellMemory;
use crate::components::stats::Stats;
use crate::components::weapons::WeaponType;
use crate::components::wearables::WearableType;
use crate::utils::ids::random_id;
use crate::utils::rolls::Roller;

verus! {

/// Generate a weapon of the given kind: a fresh id, a modest attack
/// profile drawn from the dice, and no defense.
pub fn generate_weapon(weapon_type: WeaponType, roller: &mut Roller) -> (r: Item)
    ensures
        r.model().wf(),
        r.model().item_type == ItemType::Weapon(weapon_type),
        r.model().attack matches Some(a) && 1 <= a.num_rolls <= 3 && 0 <= a.modifier <= 4
            && a.effects == (if weapon_type == WeaponType::Club || weapon_type
            == WeaponType::Hammer {
            seq![AttackEffect::Crushing]
        } else {
            seq![AttackEffect::Sharp]
        }),
{
    let num_rolls = roller.roll_range(1, 3) as usize;
    let modifier = roller.roll_range(0, 4) as i32;
    let effects: Vec<AttackEffect> = if matches!(weapon_type, WeaponType::Club | WeaponType::Hammer) {
        vec![AttackEffect::Crushing]
    } else {
        vec![AttackEffect::Sharp]
    };
    proof {
        assert(effects@ =~= (if weapon_type == WeaponType::Club || weapon_type
            == WeaponType::Hammer {
            seq![AttackEffect::Crushing]
        } else {
            seq![AttackEffect::Sharp]
        }));
    }
    Item {
        identifier: Identifier { id: random_id(), name: None },
        item_type: ItemType::Weapon(weapon_type),
        material: Some(Material::Iron),
        descriptors: Vec::new(),
        attack: Some(Attack { num_rolls, modifier, effects }),
        defense: None,
    }
}

/// Generate a wearable of the given kind. The material is drawn from
/// the kind's own allowed set: picking outside it is impossible here
/// by construction.
pub fn generate_wearable(wearable_type: WearableType, roller: &mut Roller) -> (r: Item)
    ensures
        r.model().wf(),
        r.model().item_type == ItemType::Wearable(wearable_type),
        r.model().defense matches Some(d) && 0 <= d.damage_resistance <= 6,
        r.model().descriptors == wearable_type.spec_necessary_descriptors(),
        (r.model().material matches Some(m) ==> wearable_type.spec_possible_materials().contains(
            m,
        )),
{
    let materials = wearable_type.possible_materials();
    let material = if materials.len() > 0 {
        let index = roller.roll_range(0, (materials.len() - 1) as u64) as usize;
        let chosen = materials[index];
        proof {
            assert(wearable_type.spec_possible_materials().contains(chosen));
        }
        Some(chosen)
    } else {
        None
    };
    let damage_resistance = roller.roll_range(0, 6) as i32;
    let r = Item {
        identifier: Identifier { id: random_id(), name: None },
        item_type: ItemType::Wearable(wearable_type),
        material,
        descriptors: wearable_type.necessary_descriptors(),
        attack: None,
        defense: Some(Defense { damage_resistance }),
    };
    proof {
        assert(r.model().descriptors =~= wearable_type.spec_necessary_descriptors());
    }
    r
}

/// A prototype for generating one character.
pub struct CharacterPrototype {
    pub identifier: Option<String>,
    pub species: Species,
    pub life_modifier: Option<LifeModifier>,
    pub has_inventory: bool,
}

impl CharacterPrototype {
    /// A prototype for a character of the given species, loaded with
    /// readied equipment.
    pub fn overloaded_character(species: Species) -> (r: CharacterPrototype)
        ensures
            r.species == species,
            r.life_modifier is None,
            r.has_inventory,
    {
        CharacterPrototype { identifier: None, species, life_modifier: None, has_inventory: true }
    }

    /// Generate a character from this prototype: full health within the
    /// generation bounds, and, when the prototype asks for one, an
    /// inventory of one readied weapon followed by readied wearables
    /// whose body regions never conflict — the exclusion check is
    /// applied in both orderings before a second wearable is equipped.
    pub fn generate(&self, roller: &mut Roller) -> (r: Character)
        ensures
            r.model().wf(),
            r.model().species == self.species,
            r.model().life_modifier == self.life_modifier,
            r.stats.health.current == r.stats.health.max,
            60 <= r.stats.health.max <= 120,
            readied_wearables_compatible(r.model().inventory),
            !self.has_inventory ==> r.model().inventory.len() == 0,
            self.has_inventory ==> ({
                let inv = r.model().inventory;
                &&& 2 <= inv.len() <= 3
                &&& inv[0].at_the_ready && !inv[0].is_hidden
                &&& (inv[0].item.item_type == ItemType::Weapon(WeaponType::Dagger)
                    || inv[0].item.item_type == ItemType::Weapon(WeaponType::LongSword))
                &&& inv[1].at_the_ready && !inv[1].is_hidden
                &&& (inv[1].item.item_type == ItemType::Wearable(WearableType::Breastplate)
                    || inv[1].item.item_type == ItemType::Wearable(WearableType::Shirt))
                &&& (inv.len() == 3 ==> inv[2].at_the_ready && !inv[2].is_hidden && (
                inv[2].item.item_type == ItemType::Wearable(WearableType::Boots)
                    || inv[2].item.item_type == ItemType::Wearable(WearableType::Crown)))
            }),
    {
        let max_health = roller.roll_range(60, 120) as i32;
        let mut inventory = Inventory::empty();
        if self.has_inventory {
            let weapon_pick = roller.roll_range(0, 1);
            let weapon_type = if weapon_pick == 0 {
                WeaponType::Dagger
            } else {
                WeaponType::LongSword
            };
            let weapon = generate_weapon(weapon_type, roller);
            inventory.add_item(
                CharacterItem { item: weapon, is_hidden: false, at_the_ready: true, is_multiple: false },
            );
            let wearable_pick = roller.roll_range(0, 1);
            let first_type = if wearable_pick == 0 {
                WearableType::Breastplate
            } else {
                WearableType::Shirt
            };
            let first_wearable = generate_wearable(first_type, roller);
            inventory.add_item(
                CharacterItem {
                    item: first_wearable,
                    is_hidden: false,
                    at_the_ready: true,
                    is_multiple: first_type.is_multiple(),
                },
            );
            let second_pick = roller.roll_range(0, 1);
            let second_type = if second_pick == 0 {
                WearableType::Boots
            } else {
                WearableType::Crown
            };
            if !first_type.unable_to_be_used_with(&second_type)
                && !second_type.unable_to_be_used_with(&first_type) {
                let second_wearable = generate_wearable(second_type, roller);
                inventory.add_item(
                    CharacterItem {
                        item: second_wearable,
                        is_hidden: false,
                        at_the_ready: true,
                        is_multiple: second_type.is_multiple(),
                    },
                );
            }
        }
        let r = Character {
            stats: Stats { health: Health { current: max_health, max: max_health } },
            species: self.species,
            life_modifier: self.life_modifier,
            inventory,
            current_effects: Effects::none(),
            spell_memory: SpellMemory::empty(),
        };
        proof {
            assert(r.model().wf());
            let inv = r.model().inventory;
            assert forall|i: int, j: int|
                0 <= i < inv.len() && 0 <= j < inv.len() && i != j && (
                #[trigger] inv[i]).is_readied_wearable() && (
                #[trigger] inv[j]).is_readied_wearable() implies match (
                inv[i].item.item_type,
                inv[j].item.item_type,
            ) {
                (ItemType::Wearable(a), ItemType::Wearable(b)) => !a.spec_unable_to_be_used_with(
                    b,
                ),
                _ => true,
            } by {
                assert(inv.len() <= 3);
                assert(0 < inv.len() ==> !inv[0].is_readied_wearable());
            }
            assert(readied_wearables_compatible(inv));
        }
        r
    }
}

} // verus!
