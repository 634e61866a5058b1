use vstd::prelude::*;
use vstd::string::StringExecFns;

use super::identifier::{Identifier, IdentifierM};
use super::items::{FixtureItem, ItemM};
use super::material::Material;
use super::object_descriptor::ObjectDescriptor;
use super::size::Size;

verus! {

/// Kinds of fixtures a room can hold.
#[derive(Clone, Copy, Debug, PartialEq, Eq, Structural)]
pub enum FixtureType {
    Barrel,
    Bed,
    Chair,
    Chest,
    Cot,
    Crate,
    Table,
    WeaponRack,
}

impl FixtureType {
    /// The singular noun for this kind.
    pub open spec fn spec_describe(self) -> Seq<char> {
        match self {
            FixtureType::Barrel => "barrel"@,
            FixtureType::Bed => "bed"@,
            FixtureType::Chair => "chair"@,
            FixtureType::Chest => "chest"@,
            FixtureType::Cot => "cot"@,
            FixtureType::Crate => "crate"@,
            FixtureType::Table => "table"@,
            FixtureType::WeaponRack => "weapon rack"@,
        }
    }

    /// The plural noun for this kind.
    pub open spec fn spec_describe_plural(self) -> Seq<char> {
        match self {
            FixtureType::Barrel => "barrels"@,
            FixtureType::Bed => "beds"@,
            FixtureType::Chair => "chairs"@,
            FixtureType::Chest => "chests"@,
            FixtureType::Cot => "cots"@,
            FixtureType::Crate => "crates"@,
            FixtureType::Table => "tables"@,
            FixtureType::WeaponRack => "weapon racks"@,
        }
    }

    /// How a group of `count` fixtures of this kind is described: the
    /// plural noun for more than one, the singular otherwise.
    pub open spec fn spec_describe_count(self, count: int) -> Seq<char> {
        if count > 1 {
            self.spec_describe_plural()
        } else {
            self.spec_describe()
        }
    }

    pub fn describe(&self) -> (r: String)
        ensures
            r@ == self.spec_describe(),
    {
        match *self {
            FixtureType::Barrel => String::from_str("barrel"),
            FixtureType::Bed => String::from_str("bed"),
            FixtureType::Chair => String::from_str("chair"),
            FixtureType::Chest => String::from_str("chest"),
            FixtureType::Cot => String::from_str("cot"),
            FixtureType::Crate => String::from_str("crate"),
            FixtureType::Table => String::from_str("table"),
            FixtureType::WeaponRack => String::from_str("weapon rack"),
        }
    }

    pub fn describe_plural(&self) -> (r: String)
        ensures
            r@ == self.spec_describe_plural(),
    {
        match *self {
            FixtureType::Barrel => String::from_str("barrels"),
            FixtureType::Bed => String::from_str("beds"),
            FixtureType::Chair => String::from_str("chairs"),
            FixtureType::Chest => String::from_str("chests"),
            FixtureType::Cot => String::from_str("cots"),
            FixtureType::Crate => String::from_str("crates"),
            FixtureType::Table => String::from_str("tables"),
            FixtureType::WeaponRack => String::from_str("weapon racks"),
        }
    }

    pub fn describe_count(&self, count: usize) -> (r: String)
        ensures
            r@ == self.spec_describe_count(count as int),
    {
        if count > 1 {
            self.describe_plural()
        } else {
            self.describe()
        }
    }
}

/// A fixture standing in a room, holding items that can be looted.
#[derive(Debug)]
pub struct Fixture {
    pub identifier: Identifier,
    pub fixture_type: FixtureType,
    pub material: Option<Material>,
    pub size: Size,
    pub descriptors: Vec<ObjectDescriptor>,
    pub items: Vec<FixtureItem>,
}

/// The mathematical model of a [`Fixture`].
#[verifier::ext_equal]
pub ghost struct FixtureM {
    pub identifier: IdentifierM,
    pub fixture_type: FixtureType,
    pub material: Option<Material>,
    pub size: Size,
    pub descriptors: Seq<ObjectDescriptor>,
    pub items: Seq<ItemM>,
}

impl FixtureM {
    /// Every item on the fixture is within the generation bounds, and
    /// the fixture holds at most one item instance per id.
    pub open spec fn wf(self) -> bool {
        &&& forall|i: int| 0 <= i < self.items.len() ==> (#[trigger] self.items[i]).wf()
        &&& forall|i: int, j: int|
            0 <= i < j < self.items.len() ==> (#[trigger] self.items[i]).identifier.id != (
            #[trigger] self.items[j]).identifier.id
    }
}

impl Fixture {
    /// The mathematical model of this fixture.
    pub open spec fn model(self) -> FixtureM {
        FixtureM {
            identifier: self.identifier.model(),
            fixture_type: self.fixture_type,
            material: self.material,
            size: self.size,
            descriptors: self.descriptors@,
            items: self.items@.map_values(|fi: FixtureItem| fi.model()),
        }
    }
}

impl Clone for Fixture {
    fn clone(&self) -> (r: Self)
        ensures
            r.model() == self.model(),
    {
        let mut descriptors: Vec<ObjectDescriptor> = Vec::new();
        let mut i: usize = 0;
        while i < self.descriptors.len()
            invariant
                i <= self.descriptors@.len(),
                descriptors@ =~= self.descriptors@.take(i as int),
            decreases self.descriptors@.len() - i,
        {
            descriptors.push(self.descriptors[i]);
            i = i + 1;
        }
        let mut items: Vec<FixtureItem> = Vec::new();
        let mut j: usize = 0;
        while j < self.items.len()
            invariant
                j <= self.items@.len(),
                items@.len() == j,
                forall|k: int| 0 <= k < j ==> (#[trigger] items@[k]).model() == self.items@[k].model(),
            decreases self.items@.len() - j,
        {
            items.push(self.items[j].clone());
            j = j + 1;
        }
        let r = Fixture {
            identifier: self.identifier.clone(),
            fixture_type: self.fixture_type,
            material: self.material,
            size: self.size,
            descriptors,
            items,
        };
        proof {
            assert(r.model().descriptors =~= self.model().descriptors);
            assert(r.model().items =~= self.model().items);
            assert(r.model() =~= self.model());
        }
        r
    }
}

} // verus!
