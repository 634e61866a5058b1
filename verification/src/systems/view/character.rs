use vstd::prelude::*;

use crate::components::character::{
    Character, CharacterM, CharacterView, CharacterViewArgs, CharacterViewM,
};
use crate::components::effects::EffectsView;
use crate::components::inventory::InventoryView;
use crate::components::items::{CharacterItem, CharacterItemM};
use crate::components::spells::SpellMemoryView;
use crate::components::stats::StatsView;

verus! {

/// Arguments that expose everything: the omniscient observer.
pub open spec fn spec_args_all() -> CharacterViewArgs {
    CharacterViewArgs {
        knows_health: true,
        knows_species: true,
        knows_life_modifier: true,
        knows_inventory: true,
        knows_hidden_in_inventory: true,
        knows_packed_in_inventory: true,
    }
}

/// Whether one carried item passes the observer's knowledge: hidden
/// items need the hidden flag, items not at the ready need the packed
/// flag.
pub open spec fn spec_item_visible(item: CharacterItemM, args: CharacterViewArgs) -> bool {
    &&& (!item.is_hidden || args.knows_hidden_in_inventory)
    &&& (item.at_the_ready || args.knows_packed_in_inventory)
}

/// The carried items the observer is allowed to see, in order.
pub open spec fn spec_visible_equipment(
    items: Seq<CharacterItemM>,
    args: CharacterViewArgs,
) -> Seq<CharacterItemM>
    decreases items.len(),
{
    if items.len() == 0 {
        Seq::<CharacterItemM>::empty()
    } else {
        spec_visible_equipment(items.drop_last(), args) + (if spec_item_visible(
            items.last(),
            args,
        ) {
            seq![items.last()]
        } else {
            Seq::<CharacterItemM>::empty()
        })
    }
}

/// The redacted projection of a character: every knowledge-dependent
/// field is exposed exactly when the observer's arguments allow it,
/// and `knows_all` bypasses all redaction.
pub open spec fn spec_look_at_character(
    c: CharacterM,
    args: CharacterViewArgs,
    knows_all: bool,
) -> CharacterViewM {
    let a = if knows_all {
        spec_args_all()
    } else {
        args
    };
    CharacterViewM {
        stats: StatsView {
            health: if a.knows_health {
                Some(c.stats.health)
            } else {
                None
            },
        },
        species: if a.knows_species {
            Some(c.species)
        } else {
            None
        },
        species_known: a.knows_species,
        life_modifier: if a.knows_life_modifier {
            c.life_modifier
        } else {
            None
        },
        life_modifier_known: a.knows_life_modifier,
        inventory: if a.knows_inventory {
            Some(spec_visible_equipment(c.inventory, a))
        } else {
            None
        },
        inventory_known: a.knows_inventory,
        current_effects: c.current_effects,
        spell_memory: if knows_all {
            Some(c.spell_memory)
        } else {
            None
        },
        spell_memory_known: knows_all,
    }
}

/// Every item an observer is shown passes the observer's knowledge:
/// hidden or packed items appear only under the matching flag.
pub proof fn lemma_visible_equipment_items(items: Seq<CharacterItemM>, args: CharacterViewArgs)
    ensures
        forall|i: int|
            0 <= i < spec_visible_equipment(items, args).len() ==> spec_item_visible(
                #[trigger] spec_visible_equipment(items, args)[i],
                args,
            ),
    decreases items.len(),
{
    if items.len() > 0 {
        lemma_visible_equipment_items(items.drop_last(), args);
        let whole = spec_visible_equipment(items, args);
        let prefix = spec_visible_equipment(items.drop_last(), args);
        assert forall|i: int| 0 <= i < whole.len() implies spec_item_visible(
            #[trigger] whole[i],
            args,
        ) by {
            if i < prefix.len() {
                assert(whole[i] == prefix[i]);
            }
        }
    }
}

/// Without omniscience, the view exposes each redactable field exactly
/// when its flag is set and nothing else: with every flag false it
/// exposes no health, species, life modifier or inventory at all, and
/// flipping a single flag exposes exactly that field.
pub proof fn lemma_character_view_redaction(c: CharacterM, args: CharacterViewArgs)
    ensures
        ({
            let v = spec_look_at_character(c, args, false);
            &&& (v.stats.health is Some <==> args.knows_health)
            &&& (v.species is Some <==> args.knows_species)
            &&& v.species_known == args.knows_species
            &&& (v.life_modifier is Some ==> args.knows_life_modifier)
            &&& v.life_modifier_known == args.knows_life_modifier
            &&& (v.inventory is Some <==> args.knows_inventory)
            &&& v.inventory_known == args.knows_inventory
            &&& v.spell_memory is None
            &&& (v.inventory matches Some(shown) ==> forall|i: int|
                0 <= i < shown.len() ==> spec_item_visible(#[trigger] shown[i], args))
        }),
{
    if args.knows_inventory {
        lemma_visible_equipment_items(c.inventory, args);
    }
}

/// Project a character for an observer with the given knowledge.
pub fn look_at(character: &Character, args: &CharacterViewArgs, knows_all: bool) -> (r:
    CharacterView)
    ensures
        r.model() == spec_look_at_character(character.model(), *args, knows_all),
{
    let a = if knows_all {
        CharacterViewArgs {
            knows_health: true,
            knows_species: true,
            knows_life_modifier: true,
            knows_inventory: true,
            knows_hidden_in_inventory: true,
            knows_packed_in_inventory: true,
        }
    } else {
        *args
    };
    let inventory = if a.knows_inventory {
        let ghost m = character.model().inventory;
        let mut equipment: Vec<CharacterItem> = Vec::new();
        let mut i: usize = 0;
        while i < character.inventory.equipment.len()
            invariant
                m == character.model().inventory,
                i <= character.inventory.equipment@.len(),
                equipment@.map_values(|ci: CharacterItem| ci.model()) =~= spec_visible_equipment(
                    m.take(i as int),
                    a,
                ),
            decreases character.inventory.equipment@.len() - i,
        {
            proof {
                assert(m.take(i + 1).drop_last() =~= m.take(i as int));
                assert(m.take(i + 1).last() == m[i as int]);
            }
            let item = &character.inventory.equipment[i];
            if (!item.is_hidden || a.knows_hidden_in_inventory) && (item.at_the_ready
                || a.knows_packed_in_inventory) {
                equipment.push(item.clone());
            }
            proof {
                assert(equipment@.map_values(|ci: CharacterItem| ci.model())
                    =~= spec_visible_equipment(m.take(i + 1), a));
            }
            i = i + 1;
        }
        proof {
            assert(m.take(m.len() as int) =~= m);
        }
        Some(InventoryView { equipment })
    } else {
        None
    };
    let spell_memory = if knows_all {
        let memory = character.spell_memory.clone();
        Some(SpellMemoryView { spells: memory.spells })
    } else {
        None
    };
    let r = CharacterView {
        stats: StatsView {
            health: if a.knows_health {
                Some(character.stats.health)
            } else {
                None
            },
        },
        species: if a.knows_species {
            Some(character.species)
        } else {
            None
        },
        species_known: a.knows_species,
        life_modifier: if a.knows_life_modifier {
            character.life_modifier
        } else {
            None
        },
        life_modifier_known: a.knows_life_modifier,
        inventory,
        inventory_known: a.knows_inventory,
        current_effects: character.current_effects.clone_as_view(),
        spell_memory,
        spell_memory_known: knows_all,
    };
    proof {
        assert(r.model() =~= spec_look_at_character(character.model(), *args, knows_all));
    }
    r
}

} // verus!
