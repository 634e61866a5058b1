use vstd::prelude::*;

use super::damage::{attack_opt_model, Attack, AttackM, Defense};
use super::identifier::{Identifier, IdentifierM};
use super::material::Material;
use super::object_descriptor::ObjectDescriptor;
use super::wearables::WearableType;
use super::weapons::WeaponType;

verus! {

/// What sort of equipment an item is.
#[derive(Clone, Copy, Debug, PartialEq, Eq, Structural)]
pub enum ItemType {
    Weapon(WeaponType),
    Wearable(WearableType),
}

/// A generated item: immutable once built.
#[derive(Debug)]
pub struct Item {
    pub identifier: Identifier,
    pub item_type: ItemType,
    pub material: Option<Material>,
    pub descriptors: Vec<ObjectDescriptor>,
    pub attack: Option<Attack>,
    pub defense: Option<Defense>,
}

/// The mathematical model of an [`Item`].
#[verifier::ext_equal]
pub ghost struct ItemM {
    pub identifier: IdentifierM,
    pub item_type: ItemType,
    pub material: Option<Material>,
    pub descriptors: Seq<ObjectDescriptor>,
    pub attack: Option<AttackM>,
    pub defense: Option<Defense>,
}

impl ItemM {
    /// Bounds every generated item obeys, so that sums over an
    /// inventory cannot overflow.
    pub open spec fn wf(self) -> bool {
        &&& (self.attack matches Some(a) ==> a.wf())
        &&& (self.defense matches Some(d) ==> d.wf())
    }

    pub open spec fn is_weapon(self) -> bool {
        self.item_type is Weapon
    }

    pub open spec fn is_wearable(self) -> bool {
        self.item_type is Wearable
    }
}

impl Item {
    /// The mathematical model of this item.
    pub open spec fn model(self) -> ItemM {
        ItemM {
            identifier: self.identifier.model(),
            item_type: self.item_type,
            material: self.material,
            descriptors: self.descriptors@,
            attack: attack_opt_model(self.attack),
            defense: self.defense,
        }
    }

    pub fn is_weapon(&self) -> (r: bool)
        ensures
            r == self.model().is_weapon(),
    {
        matches!(self.item_type, ItemType::Weapon(_))
    }

    pub fn is_wearable(&self) -> (r: bool)
        ensures
            r == self.model().is_wearable(),
    {
        matches!(self.item_type, ItemType::Wearable(_))
    }
}

impl Clone for Item {
    fn clone(&self) -> (r: Self)
        ensures
            r.model() == self.model(),
    {
        let mut descriptors: Vec<ObjectDescriptor> = Vec::new();
        let mut i: usize = 0;
        while i < self.descriptors.len()
            invariant
                i <= self.descriptors@.len(),
                descriptors@ =~= self.descriptors@.take(i as int),
            decreases self.descriptors@.len() - i,
        {
            descriptors.push(self.descriptors[i]);
            i = i + 1;
        }
        let attack = match &self.attack {
            Some(a) => Some(a.clone()),
            None => None,
        };
        let r = Item {
            identifier: self.identifier.clone(),
            item_type: self.item_type,
            material: self.material,
            descriptors,
            attack,
            defense: self.defense,
        };
        proof {
            assert(r.model() =~= self.model());
        }
        r
    }
}

/// An item as a character carries it, with its placement flags.
#[derive(Debug)]
pub struct CharacterItem {
    pub item: Item,
    pub is_hidden: bool,
    pub at_the_ready: bool,
    pub is_multiple: bool,
}

/// The mathematical model of a [`CharacterItem`].
#[verifier::ext_equal]
pub ghost struct CharacterItemM {
    pub item: ItemM,
    pub is_hidden: bool,
    pub at_the_ready: bool,
    pub is_multiple: bool,
}

impl CharacterItemM {
    pub open spec fn wf(self) -> bool {
        self.item.wf()
    }

    /// Whether this is a weapon held at the ready.
    pub open spec fn is_readied_weapon(self) -> bool {
        self.at_the_ready && self.item.is_weapon()
    }

    /// Whether this is a wearable held at the ready.
    pub open spec fn is_readied_wearable(self) -> bool {
        self.at_the_ready && self.item.is_wearable()
    }

    /// Whether this is a weapon not currently held at the ready.
    pub open spec fn is_non_readied_weapon(self) -> bool {
        !self.at_the_ready && self.item.is_weapon()
    }

    /// How strong a weapon is: the largest total its attack can roll.
    pub open spec fn strength(self) -> int {
        match self.item.attack {
            Some(a) => a.max_roll(),
            None => 0,
        }
    }
}

impl CharacterItem {
    /// The mathematical model of this carried item.
    pub open spec fn model(self) -> CharacterItemM {
        CharacterItemM {
            item: self.item.model(),
            is_hidden: self.is_hidden,
            at_the_ready: self.at_the_ready,
            is_multiple: self.is_multiple,
        }
    }

    pub fn is_at_the_ready(&self) -> (r: bool)
        ensures
            r == self.at_the_ready,
    {
        self.at_the_ready
    }
}

impl Clone for CharacterItem {
    fn clone(&self) -> (r: Self)
        ensures
            r.model() == self.model(),
    {
        CharacterItem {
            item: self.item.clone(),
            is_hidden: self.is_hidden,
            at_the_ready: self.at_the_ready,
            is_multiple: self.is_multiple,
        }
    }
}

/// An item as it sits on a fixture, waiting to be looted.
#[derive(Debug)]
pub struct FixtureItem {
    pub item: Item,
}

impl FixtureItem {
    /// The mathematical model of a fixture's item is the item's own model.
    pub open spec fn model(self) -> ItemM {
        self.item.model()
    }
}

impl Clone for FixtureItem {
    fn clone(&self) -> (r: Self)
        ensures
            r.model() == self.model(),
    {
        FixtureItem { item: self.item.clone() }
    }
}

} // verus!
