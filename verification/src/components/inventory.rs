use vstd::prelude::*;

use super::damage::AttackEffect;
use super::items::{CharacterItem, CharacterItemM, ItemType};

verus! {

/// What a readied item contributes to the lowest attack total.
pub open spec fn item_attack_lo(ci: CharacterItemM) -> int {
    if ci.at_the_ready {
        match ci.item.attack {
            Some(a) => a.lowest_outcome(),
            None => 0,
        }
    } else {
        0
    }
}

/// What a readied item contributes to the highest attack total.
pub open spec fn item_attack_hi(ci: CharacterItemM) -> int {
    if ci.at_the_ready {
        match ci.item.attack {
            Some(a) => a.highest_outcome(),
            None => 0,
        }
    } else {
        0
    }
}

/// The lowest total the readied attack profiles in `s` can roll.
pub open spec fn attack_total_lo(s: Seq<CharacterItemM>) -> int
    decreases s.len(),
{
    if s.len() == 0 {
        0
    } else {
        attack_total_lo(s.drop_last()) + item_attack_lo(s.last())
    }
}

/// The highest total the readied attack profiles in `s` can roll.
pub open spec fn attack_total_hi(s: Seq<CharacterItemM>) -> int
    decreases s.len(),
{
    if s.len() == 0 {
        0
    } else {
        attack_total_hi(s.drop_last()) + item_attack_hi(s.last())
    }
}

/// The attack effects of the readied items in `s`, in inventory order.
pub open spec fn ready_attack_effects(s: Seq<CharacterItemM>) -> Seq<AttackEffect>
    decreases s.len(),
{
    if s.len() == 0 {
        Seq::<AttackEffect>::empty()
    } else {
        ready_attack_effects(s.drop_last()) + (if s.last().at_the_ready {
            match s.last().item.attack {
                Some(a) => a.effects,
                None => Seq::<AttackEffect>::empty(),
            }
        } else {
            Seq::<AttackEffect>::empty()
        })
    }
}

/// Bounds on the attack totals of a well-formed item sequence.
pub proof fn lemma_attack_totals_bounds(s: Seq<CharacterItemM>)
    requires
        forall|i: int| 0 <= i < s.len() ==> (#[trigger] s[i]).wf(),
    ensures
        0 <= attack_total_lo(s),
        attack_total_lo(s) <= attack_total_hi(s),
        attack_total_hi(s) <= 10500 * s.len(),
    decreases s.len(),
{
    if s.len() > 0 {
        assert(forall|i: int| 0 <= i < s.drop_last().len() ==> (#[trigger] s.drop_last()[i]).wf());
        lemma_attack_totals_bounds(s.drop_last());
        assert(s[s.len() - 1].wf());
        assert(0 <= item_attack_lo(s.last()));
        assert(item_attack_lo(s.last()) <= item_attack_hi(s.last()));
        assert(item_attack_hi(s.last()) <= 10500);
    }
}

/// No two wearables held at the ready occupy conflicting body regions:
/// the exclusion table holds of neither ordering of any pair.
pub open spec fn readied_wearables_compatible(s: Seq<CharacterItemM>) -> bool {
    forall|i: int, j: int|
        0 <= i < s.len() && 0 <= j < s.len() && i != j && (
        #[trigger] s[i]).is_readied_wearable() && (#[trigger] s[j]).is_readied_wearable()
            ==> match (s[i].item.item_type, s[j].item.item_type) {
            (ItemType::Wearable(a), ItemType::Wearable(b)) => !a.spec_unable_to_be_used_with(b),
            _ => true,
        }
}

/// The inventory holds at most one item instance per id.
pub open spec fn item_ids_unique(s: Seq<CharacterItemM>) -> bool {
    forall|i: int, j: int|
        0 <= i < j < s.len() ==> (#[trigger] s[i]).item.identifier.id != (
        #[trigger] s[j]).item.identifier.id
}

/// Whether adding this item keeps the readied wearables compatible:
/// either it is not a readied wearable, or the exclusion table holds
/// of neither ordering against anything already readied.
pub open spec fn item_compatible_with_readied(item: CharacterItemM, s: Seq<CharacterItemM>) -> bool {
    item.is_readied_wearable() ==> forall|i: int|
        0 <= i < s.len() && (#[trigger] s[i]).is_readied_wearable() ==> match (
            item.item.item_type,
            s[i].item.item_type,
        ) {
            (ItemType::Wearable(a), ItemType::Wearable(b)) => !a.spec_unable_to_be_used_with(b)
                && !b.spec_unable_to_be_used_with(a),
            _ => true,
        }
}

/// How many of the items in `s` are weapons held at the ready.
pub open spec fn count_weapons_at_ready(s: Seq<CharacterItemM>) -> nat
    decreases s.len(),
{
    if s.len() == 0 {
        0
    } else {
        count_weapons_at_ready(s.drop_last()) + (if s.last().is_readied_weapon() {
            1nat
        } else {
            0nat
        })
    }
}

/// How many of the items in `s` are wearables held at the ready.
pub open spec fn count_wearables_at_ready(s: Seq<CharacterItemM>) -> nat
    decreases s.len(),
{
    if s.len() == 0 {
        0
    } else {
        count_wearables_at_ready(s.drop_last()) + (if s.last().is_readied_wearable() {
            1nat
        } else {
            0nat
        })
    }
}

/// The summed damage resistance of every item in `s`.
pub open spec fn total_defense(s: Seq<CharacterItemM>) -> int
    decreases s.len(),
{
    if s.len() == 0 {
        0
    } else {
        total_defense(s.drop_last()) + (match s.last().item.defense {
            Some(d) => d.damage_resistance as int,
            None => 0,
        })
    }
}

proof fn lemma_take_step<T>(s: Seq<T>, i: int)
    requires
        0 <= i < s.len(),
    ensures
        s.take(i + 1).drop_last() =~= s.take(i),
        s.take(i + 1).last() == s[i],
{
}

proof fn lemma_total_defense_bounds(s: Seq<CharacterItemM>)
    requires
        forall|i: int| 0 <= i < s.len() ==> (#[trigger] s[i]).wf(),
    ensures
        0 <= total_defense(s) <= 1000 * s.len(),
    decreases s.len(),
{
    if s.len() > 0 {
        assert(forall|i: int| 0 <= i < s.drop_last().len() ==> (#[trigger] s.drop_last()[i]).wf());
        lemma_total_defense_bounds(s.drop_last());
    }
}

/// The ordered collection of items a character carries.
#[derive(Debug)]
pub struct Inventory {
    pub equipment: Vec<CharacterItem>,
}

impl Clone for Inventory {
    fn clone(&self) -> (r: Self)
        ensures
            r.model() == self.model(),
    {
        let mut equipment: Vec<CharacterItem> = Vec::new();
        let mut i: usize = 0;
        while i < self.equipment.len()
            invariant
                i <= self.equipment@.len(),
                equipment@.len() == i,
                forall|j: int|
                    0 <= j < i ==> (#[trigger] equipment@[j]).model() == self.equipment@[j].model(),
            decreases self.equipment@.len() - i,
        {
            equipment.push(self.equipment[i].clone());
            i = i + 1;
        }
        let r = Inventory { equipment };
        proof {
            assert(r.model() =~= self.model());
        }
        r
    }
}

/// An inventory as an observer sees it: only the items the observer's
/// knowledge lets through.
#[derive(Debug)]
pub struct InventoryView {
    pub equipment: Vec<CharacterItem>,
}

impl InventoryView {
    /// The mathematical model of this projection.
    pub open spec fn model(self) -> Seq<CharacterItemM> {
        self.equipment@.map_values(|ci: CharacterItem| ci.model())
    }
}

impl Inventory {
    /// The mathematical model of this inventory.
    pub open spec fn model(self) -> Seq<CharacterItemM> {
        self.equipment@.map_values(|ci: CharacterItem| ci.model())
    }

    /// Bounds every generated inventory obeys: a limited number of
    /// items, each within the item bounds.
    pub open spec fn wf(self) -> bool {
        &&& self.equipment@.len() <= 1000
        &&& forall|i: int| 0 <= i < self.model().len() ==> (#[trigger] self.model()[i]).wf()
    }

    /// Inventory of a freshly generated character, before items are added.
    pub fn empty() -> (r: Inventory)
        ensures
            r.model() =~= Seq::<CharacterItemM>::empty(),
            r.wf(),
    {
        Inventory { equipment: Vec::new() }
    }

    /// Append an item to the inventory.
    pub fn add_item(&mut self, character_item: CharacterItem)
        requires
            old(self).equipment@.len() < 1000,
        ensures
            final(self).model() =~= old(self).model().push(character_item.model()),
    {
        self.equipment.push(character_item);
    }

    /// A clone of the first item whose id matches, if any.
    pub fn find_item(&self, item_id: u128) -> (r: Option<CharacterItem>)
        ensures
            match r {
                Some(ci) => {
                    &&& exists|i: int|
                        0 <= i < self.model().len() && (#[trigger] self.model()[i]) == ci.model()
                    &&& ci.model().item.identifier.id == item_id
                },
                None => forall|i: int|
                    0 <= i < self.model().len() ==> (#[trigger] self.model()[i]).item.identifier.id
                        != item_id,
            },
    {
        let mut i: usize = 0;
        while i < self.equipment.len()
            invariant
                i <= self.equipment@.len(),
                forall|j: int|
                    0 <= j < i ==> (#[trigger] self.model()[j]).item.identifier.id != item_id,
            decreases self.equipment@.len() - i,
        {
            if self.equipment[i].item.identifier.id == item_id {
                let found = self.equipment[i].clone();
                proof {
                    assert(self.model()[i as int] == found.model());
                }
                return Some(found);
            }
            i = i + 1;
        }
        None
    }

    /// Remove and return the first item whose id matches, if any.
    #[verifier::spinoff_prover]
    pub fn remove_item(&mut self, item_id: u128) -> (r: Option<CharacterItem>)
        ensures
            match r {
                Some(ci) => {
                    &&& ci.model().item.identifier.id == item_id
                    &&& exists|i: int|
                        {
                            &&& 0 <= i < old(self).model().len()
                            &&& (#[trigger] old(self).model()[i]) == ci.model()
                            &&& final(self).model() =~= old(self).model().remove(i)
                            &&& forall|j: int|
                                0 <= j < i ==> (#[trigger] old(
                                    self,
                                ).model()[j]).item.identifier.id != item_id
                        }
                },
                None => {
                    &&& final(self).model() == old(self).model()
                    &&& forall|i: int|
                        0 <= i < old(self).model().len() ==> (#[trigger] old(
                            self,
                        ).model()[i]).item.identifier.id != item_id
                },
            },
    {
        let mut i: usize = 0;
        while i < self.equipment.len()
            invariant
                *self == *old(self),
                i <= self.equipment@.len(),
                forall|j: int|
                    0 <= j < i ==> (#[trigger] self.model()[j]).item.identifier.id != item_id,
            decreases self.equipment@.len() - i,
        {
            if self.equipment[i].item.identifier.id == item_id {
                let removed = self.equipment.remove(i);
                proof {
                    assert(self.model() =~= old(self).model().remove(i as int));
                    assert(old(self).model()[i as int] == removed.model());
                }
                return Some(removed);
            }
            i = i + 1;
        }
        None
    }

    /// How many weapons the character has at the ready.
    pub fn count_weapons_at_ready(&self) -> (r: usize)
        ensures
            r == count_weapons_at_ready(self.model()),
    {
        let mut count: usize = 0;
        let mut i: usize = 0;
        while i < self.equipment.len()
            invariant
                i <= self.equipment@.len(),
                count <= i,
                count == count_weapons_at_ready(self.model().take(i as int)),
            decreases self.equipment@.len() - i,
        {
            proof {
                lemma_take_step(self.model(), i as int);
            }
            if self.equipment[i].at_the_ready && self.equipment[i].item.is_weapon() {
                count = count + 1;
            }
            i = i + 1;
        }
        proof {
            assert(self.model().take(self.equipment@.len() as int) =~= self.model());
        }
        count
    }

    /// How many wearables the character has at the ready.
    pub fn count_wearables_at_ready(&self) -> (r: usize)
        ensures
            r == count_wearables_at_ready(self.model()),
    {
        let mut count: usize = 0;
        let mut i: usize = 0;
        while i < self.equipment.len()
            invariant
                i <= self.equipment@.len(),
                count <= i,
                count == count_wearables_at_ready(self.model().take(i as int)),
            decreases self.equipment@.len() - i,
        {
            proof {
                lemma_take_step(self.model(), i as int);
            }
            if self.equipment[i].at_the_ready && self.equipment[i].item.is_wearable() {
                count = count + 1;
            }
            i = i + 1;
        }
        proof {
            assert(self.model().take(self.equipment@.len() as int) =~= self.model());
        }
        count
    }

    /// The summed damage resistance of everything carried.
    pub fn total_defense(&self) -> (r: i32)
        requires
            self.wf(),
        ensures
            r == total_defense(self.model()),
    {
        proof {
            lemma_total_defense_bounds(self.model());
        }
        let mut sum: i32 = 0;
        let mut i: usize = 0;
        while i < self.equipment.len()
            invariant
                self.wf(),
                i <= self.equipment@.len(),
                sum == total_defense(self.model().take(i as int)),
                0 <= sum <= 1000 * i,
            decreases self.equipment@.len() - i,
        {
            proof {
                lemma_take_step(self.model(), i as int);
                lemma_total_defense_bounds(self.model().take(i as int));
            }
            if let Some(defense) = &self.equipment[i].item.defense {
                sum = sum + defense.damage_resistance;
            }
            i = i + 1;
        }
        proof {
            assert(self.model().take(self.equipment@.len() as int) =~= self.model());
        }
        sum
    }

    /// The strongest weapon not currently at the ready: the first one
    /// whose attack profile can roll highest.
    #[verifier::spinoff_prover]
    pub fn strongest_non_readied_weapon(&self) -> (r: Option<&CharacterItem>)
        requires
            self.wf(),
        ensures
            match r {
                Some(ci) => exists|i: int|
                    {
                        &&& 0 <= i < self.equipment@.len()
                        &&& (#[trigger] self.equipment@[i]) == *ci
                        &&& ci.model().is_non_readied_weapon()
                        &&& forall|j: int|
                            0 <= j < self.equipment@.len() && (
                            #[trigger] self.equipment@[j]).model().is_non_readied_weapon()
                                ==> self.equipment@[j].model().strength() <= ci.model().strength()
                        &&& forall|j: int|
                            0 <= j < i && (
                            #[trigger] self.equipment@[j]).model().is_non_readied_weapon()
                                ==> self.equipment@[j].model().strength() < ci.model().strength()
                    },
                None => forall|j: int|
                    0 <= j < self.equipment@.len() ==> !(
                    #[trigger] self.equipment@[j]).model().is_non_readied_weapon(),
            },
    {
        let mut best: Option<usize> = None;
        let mut best_strength: i64 = 0;
        let mut i: usize = 0;
        while i < self.equipment.len()
            invariant
                self.wf(),
                i <= self.equipment@.len(),
                match best {
                    Some(b) => {
                        &&& b < i
                        &&& self.equipment@[b as int].model().is_non_readied_weapon()
                        &&& best_strength == self.equipment@[b as int].model().strength()
                        &&& forall|j: int|
                            0 <= j < i && (
                            #[trigger] self.equipment@[j]).model().is_non_readied_weapon()
                                ==> self.equipment@[j].model().strength() <= best_strength
                        &&& forall|j: int|
                            0 <= j < b && (
                            #[trigger] self.equipment@[j]).model().is_non_readied_weapon()
                                ==> self.equipment@[j].model().strength() < best_strength
                    },
                    None => forall|j: int|
                        0 <= j < i ==> !(
                        #[trigger] self.equipment@[j]).model().is_non_readied_weapon(),
                },
            decreases self.equipment@.len() - i,
        {
            let item = &self.equipment[i];
            proof {
                assert(self.model()[i as int].wf());
                assert(self.equipment@[i as int].model().wf());
            }
            if !item.at_the_ready && item.item.is_weapon() {
                let strength: i64 = match &item.item.attack {
                    Some(a) => 6 * (a.num_rolls as i64) + (a.modifier as i64),
                    None => 0,
                };
                match best {
                    Some(_) => {
                        if strength > best_strength {
                            best = Some(i);
                            best_strength = strength;
                        }
                    },
                    None => {
                        best = Some(i);
                        best_strength = strength;
                    },
                }
            }
            i = i + 1;
        }
        match best {
            Some(b) => Some(&self.equipment[b]),
            None => None,
        }
    }
}

} // verus!
