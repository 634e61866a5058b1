use vstd::prelude::*;

use super::damage::{clamped, AttackEffect, AttackM, Defense, Health};
use super::effects::{Effects, EffectsM, EffectsView};
use super::inventory::{
    attack_total_hi, attack_total_lo, count_weapons_at_ready, count_wearables_at_ready,
    item_compatible_with_readied, item_ids_unique, lemma_attack_totals_bounds,
    readied_wearables_compatible, ready_attack_effects, total_defense, Inventory, InventoryView,
};
use super::items::{CharacterItem, CharacterItemM, ItemType};
use super::life_modifier::LifeModifier;
use super::species::Species;
use super::spells::{LearnedSpell, LearnedSpellM, SpellMemory, SpellMemoryView};
use super::stats::{Stats, StatsView};
use crate::utils::rolls::Roller;

verus! {

/// A character: the stats, inventory, effects and spell memory of one
/// creature, player or NPC. Mutated only through event application.
#[derive(Debug)]
pub struct Character {
    pub stats: Stats,
    pub species: Species,
    pub life_modifier: Option<LifeModifier>,
    pub inventory: Inventory,
    pub current_effects: Effects,
    pub spell_memory: SpellMemory,
}

/// The mathematical model of a [`Character`].
#[verifier::ext_equal]
pub ghost struct CharacterM {
    pub stats: Stats,
    pub species: Species,
    pub life_modifier: Option<LifeModifier>,
    pub inventory: Seq<CharacterItemM>,
    pub current_effects: EffectsM,
    pub spell_memory: Seq<LearnedSpellM>,
}

impl CharacterM {
    /// The validity invariant of a character: health within bounds,
    /// and the inventory and spells within the generation bounds.
    pub open spec fn wf(self) -> bool {
        &&& self.stats.wf()
        &&& self.inventory.len() <= 1000
        &&& forall|i: int| 0 <= i < self.inventory.len() ==> (#[trigger] self.inventory[i]).wf()
        &&& forall|i: int|
            0 <= i < self.spell_memory.len() ==> (#[trigger] self.spell_memory[i]).wf()
    }

    /// The character after taking `damage` hit points: health clamped
    /// into `[0, max]`, floor at zero meaning death.
    pub open spec fn damaged(self, damage: int) -> CharacterM {
        let h = self.stats.health;
        CharacterM {
            stats: Stats {
                health: Health {
                    current: clamped(h.current - damage, h.max as int) as i32,
                    max: h.max,
                },
            },
            ..self
        }
    }

    /// The character after healing `amount` hit points: health clamped
    /// into `[0, max]`, never rising above the maximum.
    pub open spec fn healed(self, amount: int) -> CharacterM {
        let h = self.stats.health;
        CharacterM {
            stats: Stats {
                health: Health {
                    current: clamped(h.current + amount, h.max as int) as i32,
                    max: h.max,
                },
            },
            ..self
        }
    }

    /// The character restored to full health.
    pub open spec fn healed_to_max(self) -> CharacterM {
        let h = self.stats.health;
        CharacterM { stats: Stats { health: Health { current: h.max, max: h.max } }, ..self }
    }

    /// The character struck dead.
    pub open spec fn killed(self) -> CharacterM {
        let h = self.stats.health;
        CharacterM { stats: Stats { health: Health { current: 0, max: h.max } }, ..self }
    }

    /// The character with both maximum and current health raised by
    /// `change`, saturating at the machine bounds.
    pub open spec fn max_health_increased(self, change: int) -> CharacterM {
        let h = self.stats.health;
        let new_max = clamped(h.max + change, 0x7fff_ffff) as i32;
        CharacterM {
            stats: Stats {
                health: Health {
                    current: clamped(h.current + change, new_max as int) as i32,
                    max: new_max,
                },
            },
            ..self
        }
    }

    /// The character with an item appended to its inventory.
    pub open spec fn with_item(self, item: CharacterItemM) -> CharacterM {
        CharacterM { inventory: self.inventory.push(item), ..self }
    }

    /// The character with a resurrection aura.
    pub open spec fn with_resurrection_aura(self) -> CharacterM {
        CharacterM {
            current_effects: EffectsM { resurrection_aura: true, ..self.current_effects },
            ..self
        }
    }

    /// The character with a retribution aura carrying the given attack.
    pub open spec fn with_retribution_aura(self, attack: AttackM) -> CharacterM {
        CharacterM {
            current_effects: EffectsM { retribution_aura: Some(attack), ..self.current_effects },
            ..self
        }
    }

    /// The character with a shield aura carrying the given defense.
    pub open spec fn with_shield_aura(self, defense: Defense) -> CharacterM {
        CharacterM {
            current_effects: EffectsM { shield_aura: Some(defense), ..self.current_effects },
            ..self
        }
    }
}

impl Character {
    /// The mathematical model of this character.
    pub open spec fn model(self) -> CharacterM {
        CharacterM {
            stats: self.stats,
            species: self.species,
            life_modifier: self.life_modifier,
            inventory: self.inventory.model(),
            current_effects: self.current_effects.model(),
            spell_memory: self.spell_memory.model(),
        }
    }

    /// The validity invariant, stated on the model.
    pub open spec fn wf(self) -> bool {
        self.model().wf()
    }

    /// Dead means exactly zero current hit points.
    pub fn is_dead(&self) -> (r: bool)
        ensures
            r == (self.stats.health.current == 0),
    {
        self.stats.health.current == 0
    }

    pub fn get_current_health(&self) -> (r: i32)
        ensures
            r == self.stats.health.current,
    {
        self.stats.health.current
    }

    /// Apply `damage` hit points of damage, clamping health into `[0, max]`.
    pub fn damage(&mut self, damage: i32)
        ensures
            final(self).model() == old(self).model().damaged(damage as int),
    {
        let current = self.stats.health.current as i64;
        let maximum = self.stats.health.max as i64;
        let proposed = current - (damage as i64);
        let clamped_value: i64 = if proposed < 0 {
            0
        } else if proposed > maximum {
            maximum
        } else {
            proposed
        };
        self.stats.health.current = clamped_value as i32;
        proof {
            assert(final(self).model() =~= old(self).model().damaged(damage as int));
        }
    }

    /// Heal `damage_healed` hit points, never rising above the maximum.
    pub fn heal(&mut self, damage_healed: i32)
        ensures
            final(self).model() == old(self).model().healed(damage_healed as int),
    {
        let current = self.stats.health.current as i64;
        let maximum = self.stats.health.max as i64;
        let proposed = current + (damage_healed as i64);
        let clamped_value: i64 = if proposed < 0 {
            0
        } else if proposed > maximum {
            maximum
        } else {
            proposed
        };
        self.stats.health.current = clamped_value as i32;
        proof {
            assert(final(self).model() =~= old(self).model().healed(damage_healed as int));
        }
    }

    /// Apply a hit whose raw `damage` is first reduced by the struck
    /// character's own `defense`, clamping health into `[0, max]`.
    pub fn take_hit(&mut self, damage: i32, defense: i32)
        ensures
            final(self).model() == old(self).model().damaged(damage as int - defense as int),
    {
        let current = self.stats.health.current as i64;
        let maximum = self.stats.health.max as i64;
        let proposed = current - ((damage as i64) - (defense as i64));
        let clamped_value: i64 = if proposed < 0 {
            0
        } else if proposed > maximum {
            maximum
        } else {
            proposed
        };
        self.stats.health.current = clamped_value as i32;
        proof {
            assert(final(self).model() =~= old(self).model().damaged(
                damage as int - defense as int,
            ));
        }
    }

    /// Restore health to its maximum.
    pub fn heal_to_max(&mut self)
        ensures
            final(self).model() == old(self).model().healed_to_max(),
    {
        self.stats.health.current = self.stats.health.max;
        proof {
            assert(final(self).model() =~= old(self).model().healed_to_max());
        }
    }

    /// Raise maximum and current health together, saturating at the
    /// machine bounds.
    pub fn increase_max_health(&mut self, change: i32)
        ensures
            final(self).model() == old(self).model().max_health_increased(change as int),
    {
        let maximum = self.stats.health.max as i64;
        let proposed_max = maximum + (change as i64);
        let new_max: i64 = if proposed_max < 0 {
            0
        } else if proposed_max > 0x7fff_ffff {
            0x7fff_ffff
        } else {
            proposed_max
        };
        let current = self.stats.health.current as i64;
        let proposed = current + (change as i64);
        let new_current: i64 = if proposed < 0 {
            0
        } else if proposed > new_max {
            new_max
        } else {
            proposed
        };
        self.stats.health.max = new_max as i32;
        self.stats.health.current = new_current as i32;
        proof {
            assert(final(self).model() =~= old(self).model().max_health_increased(change as int));
        }
    }

    /// Set current health to zero.
    pub fn kill(&mut self)
        ensures
            final(self).model() == old(self).model().killed(),
    {
        self.stats.health.current = 0;
        proof {
            assert(final(self).model() =~= old(self).model().killed());
        }
    }

    /// Append an item to the inventory. The added item must respect
    /// the equip rules: a readied wearable may not conflict with one
    /// already readied. Both collection invariants are preserved: the
    /// readied wearables stay compatible, and when the id is new the
    /// inventory still holds at most one item instance per id.
    pub fn add_item(&mut self, character_item: CharacterItem)
        requires
            old(self).inventory.equipment@.len() < 1000,
            item_compatible_with_readied(character_item.model(), old(self).model().inventory),
        ensures
            final(self).model() =~= old(self).model().with_item(character_item.model()),
            readied_wearables_compatible(old(self).model().inventory)
                ==> readied_wearables_compatible(final(self).model().inventory),
            item_ids_unique(old(self).model().inventory) && (forall|i: int|
                0 <= i < old(self).model().inventory.len() ==> (#[trigger] old(
                    self,
                ).model().inventory[i]).item.identifier.id
                    != character_item.model().item.identifier.id) ==> item_ids_unique(
                final(self).model().inventory,
            ),
    {
        let ghost item_model = character_item.model();
        let ghost inv_old = self.model().inventory;
        self.inventory.add_item(character_item);
        proof {
            assert(final(self).model() =~= old(self).model().with_item(item_model));
            let inv_new = final(self).model().inventory;
            if readied_wearables_compatible(inv_old) {
                assert forall|i: int, j: int|
                    0 <= i < inv_new.len() && 0 <= j < inv_new.len() && i != j && (
                    #[trigger] inv_new[i]).is_readied_wearable() && (
                    #[trigger] inv_new[j]).is_readied_wearable() implies match (
                    inv_new[i].item.item_type,
                    inv_new[j].item.item_type,
                ) {
                    (ItemType::Wearable(a), ItemType::Wearable(b)) => (
                    !a.spec_unable_to_be_used_with(b)),
                    _ => true,
                } by {
                    if i < inv_old.len() && j < inv_old.len() {
                        assert(inv_new[i] == inv_old[i] && inv_new[j] == inv_old[j]);
                    } else if i < inv_old.len() {
                        assert(inv_new[j] == item_model && inv_new[i] == inv_old[i]);
                    } else {
                        assert(inv_new[i] == item_model && inv_new[j] == inv_old[j]);
                    }
                }
            }
        }
    }

    /// A clone of the first carried item with the given id, if any.
    pub fn find_item(&self, item_id: u128) -> (r: Option<CharacterItem>)
        ensures
            match r {
                Some(ci) => {
                    &&& exists|i: int|
                        0 <= i < self.model().inventory.len() && (
                        #[trigger] self.model().inventory[i]) == ci.model()
                    &&& ci.model().item.identifier.id == item_id
                },
                None => forall|i: int|
                    0 <= i < self.model().inventory.len() ==> (
                    #[trigger] self.model().inventory[i]).item.identifier.id != item_id,
            },
    {
        self.inventory.find_item(item_id)
    }

    /// Remove and return the first carried item with the given id, if any.
    /// Everything besides the inventory is left untouched.
    pub fn remove_item(&mut self, item_id: u128) -> (r: Option<CharacterItem>)
        ensures
            final(self).stats == old(self).stats,
            final(self).species == old(self).species,
            final(self).life_modifier == old(self).life_modifier,
            final(self).current_effects == old(self).current_effects,
            final(self).spell_memory == old(self).spell_memory,
            match r {
                Some(ci) => {
                    &&& ci.model().item.identifier.id == item_id
                    &&& exists|i: int|
                        {
                            &&& 0 <= i < old(self).inventory.model().len()
                            &&& (#[trigger] old(self).inventory.model()[i]) == ci.model()
                            &&& final(self).inventory.model() =~= old(
                                self,
                            ).inventory.model().remove(i)
                            &&& forall|j: int|
                                0 <= j < i ==> (#[trigger] old(
                                    self,
                                ).inventory.model()[j]).item.identifier.id != item_id
                        }
                },
                None => {
                    &&& final(self).inventory.model() == old(self).inventory.model()
                    &&& forall|i: int|
                        0 <= i < old(self).inventory.model().len() ==> (#[trigger] old(
                            self,
                        ).inventory.model()[i]).item.identifier.id != item_id
                },
            },
    {
        self.inventory.remove_item(item_id)
    }

    /// Find the first learned spell with the given id.
    pub fn find_spell(&self, spell_id: u128) -> (r: Option<&LearnedSpell>)
        ensures
            match r {
                Some(spell) => {
                    &&& spell.id == spell_id
                    &&& exists|i: int|
                        {
                            &&& 0 <= i < self.spell_memory.spells@.len()
                            &&& (#[trigger] self.spell_memory.spells@[i]) == *spell
                            &&& forall|j: int|
                                0 <= j < i ==> (#[trigger] self.spell_memory.spells@[j]).id
                                    != spell_id
                        }
                },
                None => forall|i: int|
                    0 <= i < self.spell_memory.spells@.len() ==> (
                    #[trigger] self.spell_memory.spells@[i]).id != spell_id,
            },
    {
        self.spell_memory.find_spell(spell_id)
    }

    /// The index of the first learned spell with the given id, for
    /// callers that need to change it in place.
    pub fn find_spell_index(&self, spell_id: u128) -> (r: Option<usize>)
        ensures
            match r {
                Some(i) => {
                    &&& i < self.spell_memory.spells@.len()
                    &&& self.spell_memory.spells@[i as int].id == spell_id
                },
                None => forall|i: int|
                    0 <= i < self.spell_memory.spells@.len() ==> (
                    #[trigger] self.spell_memory.spells@[i]).id != spell_id,
            },
    {
        let mut i: usize = 0;
        while i < self.spell_memory.spells.len()
            invariant
                i <= self.spell_memory.spells@.len(),
                forall|j: int|
                    0 <= j < i ==> (#[trigger] self.spell_memory.spells@[j]).id != spell_id,
            decreases self.spell_memory.spells@.len() - i,
        {
            if self.spell_memory.spells[i].id == spell_id {
                return Some(i);
            }
            i = i + 1;
        }
        None
    }

    /// Drop the first learned spell with the given id, if present.
    pub fn forget_spell(&mut self, spell_id: u128)
        ensures
            ({
                let m = old(self).model().spell_memory;
                if exists|i: int| 0 <= i < m.len() && (#[trigger] m[i]).id == spell_id {
                    exists|i: int|
                        {
                            &&& 0 <= i < m.len()
                            &&& (#[trigger] m[i]).id == spell_id
                            &&& forall|j: int| 0 <= j < i ==> m[j].id != spell_id
                            &&& final(self).model() =~= (CharacterM {
                                spell_memory: m.remove(i),
                                ..old(self).model()
                            })
                        }
                } else {
                    final(self).model() == old(self).model()
                }
            }),
    {
        let mut i: usize = 0;
        while i < self.spell_memory.spells.len()
            invariant
                *self == *old(self),
                i <= self.spell_memory.spells@.len(),
                forall|j: int|
                    0 <= j < i ==> (#[trigger] self.spell_memory.spells@[j]).id != spell_id,
            decreases self.spell_memory.spells@.len() - i,
        {
            if self.spell_memory.spells[i].id == spell_id {
                let ghost found: int = i as int;
                self.spell_memory.spells.remove(i);
                proof {
                    let m = old(self).model().spell_memory;
                    assert(0 <= found < m.len() && m[found].id == spell_id);
                    assert(final(self).model().spell_memory =~= m.remove(found));
                    assert(final(self).model() =~= (CharacterM {
                        spell_memory: m.remove(found),
                        ..old(self).model()
                    }));
                }
                return ;
            }
            i = i + 1;
        }
    }

    pub fn no_weapons_readied(&self) -> (r: bool)
        ensures
            r == (count_weapons_at_ready(self.model().inventory) == 0),
    {
        self.inventory.count_weapons_at_ready() == 0
    }

    pub fn has_weapons_readied(&self) -> (r: bool)
        ensures
            r == (count_weapons_at_ready(self.model().inventory) > 0),
    {
        self.inventory.count_weapons_at_ready() > 0
    }

    pub fn count_weapons_at_ready(&self) -> (r: usize)
        ensures
            r == count_weapons_at_ready(self.model().inventory),
    {
        self.inventory.count_weapons_at_ready()
    }

    pub fn count_wearables_at_ready(&self) -> (r: usize)
        ensures
            r == count_wearables_at_ready(self.model().inventory),
    {
        self.inventory.count_wearables_at_ready()
    }

    /// The strongest weapon not currently at the ready, if any.
    pub fn strongest_non_readied_weapon(&self) -> (r: Option<&CharacterItem>)
        requires
            self.wf(),
        ensures
            match r {
                Some(ci) => exists|i: int|
                    {
                        &&& 0 <= i < self.inventory.equipment@.len()
                        &&& (#[trigger] self.inventory.equipment@[i]) == *ci
                        &&& ci.model().is_non_readied_weapon()
                        &&& forall|j: int|
                            0 <= j < self.inventory.equipment@.len() && (
                            #[trigger] self.inventory.equipment@[j]).model().is_non_readied_weapon()
                                ==> self.inventory.equipment@[j].model().strength()
                                <= ci.model().strength()
                    },
                None => forall|j: int|
                    0 <= j < self.inventory.equipment@.len() ==> !(
                    #[trigger] self.inventory.equipment@[j]).model().is_non_readied_weapon(),
            },
    {
        self.inventory.strongest_non_readied_weapon()
    }

    /// Roll every readied attack and sum the outcomes.
    pub fn attack(&self, roller: &mut Roller) -> (r: i32)
        requires
            self.wf(),
        ensures
            attack_total_lo(self.model().inventory) <= r <= attack_total_hi(
                self.model().inventory,
            ),
    {
        let ghost m = self.model().inventory;
        proof {
            lemma_attack_totals_bounds(m);
        }
        let mut total: i32 = 0;
        let mut i: usize = 0;
        while i < self.inventory.equipment.len()
            invariant
                self.wf(),
                m == self.model().inventory,
                i <= self.inventory.equipment@.len(),
                attack_total_lo(m.take(i as int)) <= total <= attack_total_hi(m.take(i as int)),
                0 <= total <= 10500 * i,
            decreases self.inventory.equipment@.len() - i,
        {
            proof {
                assert(m.take(i + 1).drop_last() =~= m.take(i as int));
                assert(m.take(i + 1).last() == m[i as int]);
                assert((#[trigger] m[i as int]).wf());
                lemma_attack_totals_bounds(m.take(i as int));
            }
            let item = &self.inventory.equipment[i];
            if item.at_the_ready {
                match &item.item.attack {
                    Some(attack) => {
                        proof {
                            assert(m[i as int].item.attack == Some(attack.model()));
                            assert(attack.wf());
                        }
                        let roll = attack.attack_roll(roller);
                        total = total + roll;
                    },
                    None => {},
                }
            }
            i = i + 1;
        }
        proof {
            assert(m.take(self.inventory.equipment@.len() as int) =~= m);
        }
        total
    }

    /// The attack effects of everything held at the ready, in order.
    pub fn attack_effects(&self) -> (r: Vec<AttackEffect>)
        ensures
            r@ == ready_attack_effects(self.model().inventory),
    {
        let ghost m = self.model().inventory;
        let mut out: Vec<AttackEffect> = Vec::new();
        let mut i: usize = 0;
        while i < self.inventory.equipment.len()
            invariant
                m == self.model().inventory,
                i <= self.inventory.equipment@.len(),
                out@ == ready_attack_effects(m.take(i as int)),
            decreases self.inventory.equipment@.len() - i,
        {
            proof {
                assert(m.take(i + 1).drop_last() =~= m.take(i as int));
                assert(m.take(i + 1).last() == m[i as int]);
            }
            let item = &self.inventory.equipment[i];
            if item.is_at_the_ready() {
                match &item.item.attack {
                    Some(attack) => {
                        let mut j: usize = 0;
                        while j < attack.effects.len()
                            invariant
                                j <= attack.effects@.len(),
                                out@ == ready_attack_effects(m.take(i as int)) + attack.effects@.take(
                                    j as int,
                                ),
                            decreases attack.effects@.len() - j,
                        {
                            proof {
                                assert(attack.effects@.take(j + 1) =~= attack.effects@.take(
                                    j as int,
                                ).push(attack.effects@[j as int]));
                            }
                            out.push(attack.effects[j]);
                            j = j + 1;
                        }
                        proof {
                            assert(attack.effects@.take(attack.effects@.len() as int)
                                =~= attack.effects@);
                            assert(out@ =~= ready_attack_effects(m.take(i + 1)));
                        }
                    },
                    None => {
                        proof {
                            assert(out@ =~= ready_attack_effects(m.take(i + 1)));
                        }
                    },
                }
            } else {
                proof {
                    assert(out@ =~= ready_attack_effects(m.take(i + 1)));
                }
            }
            i = i + 1;
        }
        proof {
            assert(m.take(self.inventory.equipment@.len() as int) =~= m);
        }
        out
    }

    /// The summed damage resistance of everything carried.
    pub fn defense(&self) -> (r: i32)
        requires
            self.wf(),
        ensures
            r == total_defense(self.model().inventory),
    {
        self.inventory.total_defense()
    }
}

impl Clone for Character {
    fn clone(&self) -> (r: Self)
        ensures
            r.model() == self.model(),
    {
        let r = Character {
            stats: self.stats,
            species: self.species,
            life_modifier: self.life_modifier,
            inventory: self.inventory.clone(),
            current_effects: self.current_effects.clone(),
            spell_memory: self.spell_memory.clone(),
        };
        proof {
            assert(r.model() =~= self.model());
        }
        r
    }
}

/// A character as one observer sees it: every knowledge-dependent field
/// is optional, with a companion flag saying whether it is known.
#[derive(Debug)]
pub struct CharacterView {
    pub stats: StatsView,
    pub species: Option<Species>,
    pub species_known: bool,
    pub life_modifier: Option<LifeModifier>,
    pub life_modifier_known: bool,
    pub inventory: Option<InventoryView>,
    pub inventory_known: bool,
    pub current_effects: EffectsView,
    pub spell_memory: Option<SpellMemoryView>,
    pub spell_memory_known: bool,
}

/// The mathematical model of a [`CharacterView`].
#[verifier::ext_equal]
pub ghost struct CharacterViewM {
    pub stats: StatsView,
    pub species: Option<Species>,
    pub species_known: bool,
    pub life_modifier: Option<LifeModifier>,
    pub life_modifier_known: bool,
    pub inventory: Option<Seq<CharacterItemM>>,
    pub inventory_known: bool,
    pub current_effects: EffectsM,
    pub spell_memory: Option<Seq<LearnedSpellM>>,
    pub spell_memory_known: bool,
}

impl CharacterView {
    /// The mathematical model of this projection.
    pub open spec fn model(self) -> CharacterViewM {
        CharacterViewM {
            stats: self.stats,
            species: self.species,
            species_known: self.species_known,
            life_modifier: self.life_modifier,
            life_modifier_known: self.life_modifier_known,
            inventory: match self.inventory {
                Some(inv) => Some(inv.model()),
                None => None,
            },
            inventory_known: self.inventory_known,
            current_effects: self.current_effects.model(),
            spell_memory: match self.spell_memory {
                Some(sm) => Some(sm.model()),
                None => None,
            },
            spell_memory_known: self.spell_memory_known,
        }
    }
}

/// Which parts of a character an observer is entitled to see.
#[derive(Clone, Copy, Debug)]
pub struct CharacterViewArgs {
    pub knows_health: bool,
    pub knows_species: bool,
    pub knows_life_modifier: bool,
    pub knows_inventory: bool,
    pub knows_hidden_in_inventory: bool,
    pub knows_packed_in_inventory: bool,
}

impl Default for CharacterViewArgs {
    /// By default an observer knows nothing.
    fn default() -> (r: Self)
        ensures
            r == (CharacterViewArgs {
                knows_health: false,
                knows_species: false,
                knows_life_modifier: false,
                knows_inventory: false,
                knows_hidden_in_inventory: false,
                knows_packed_in_inventory: false,
            }),
    {
        CharacterViewArgs {
            knows_health: false,
            knows_species: false,
            knows_life_modifier: false,
            knows_inventory: false,
            knows_hidden_in_inventory: false,
            knows_packed_in_inventory: false,
        }
    }
}

} // verus!
