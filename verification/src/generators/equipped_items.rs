use vstd::prelude::*;
use vstd::string::StringExecFns;

use super::generator::Generator;
use crate::utils::rolls::Roller;

verus! {

/// An item together with how it ended up equipped.
#[derive(Debug)]
pub struct EquippedItem<T> {
    pub item: T,
    pub equipped_location: String,
    pub hidden: bool,
    pub multiple: bool,
}

/// A prototype for equipping a generated item: where it may sit, and
/// the percentage chances that drive the random placement choices.
pub struct EquippedItemPrototype<G> {
    pub generator: G,
    pub hidden_chance: usize,
    pub multiple: bool,
    pub equipped_locations: Vec<String>,
    pub equipped_location_chance: usize,
}

impl<G> EquippedItemPrototype<G> {
    /// Draw an equipped location: empty when the list is empty or the
    /// location roll misses, otherwise one of the candidates. A chance
    /// of one hundred or more never misses.
    pub fn equipped_location(&self, roller: &mut Roller) -> (r: String)
        ensures
            r@ == Seq::<char>::empty() || exists|i: int|
                0 <= i < self.equipped_locations@.len() && r@ == (
                #[trigger] self.equipped_locations@[i])@,
            self.equipped_locations@.len() == 0 ==> r@ == Seq::<char>::empty(),
            self.equipped_locations@.len() > 0 && self.equipped_location_chance >= 100
                ==> exists|i: int|
                0 <= i < self.equipped_locations@.len() && r@ == (
                #[trigger] self.equipped_locations@[i])@,
    {
        if self.equipped_locations.len() == 0 {
            let empty = String::new();
            return empty;
        }
        let equipped_location_roll = roller.roll_range(0, 100);
        if self.equipped_location_chance < 100 && equipped_location_roll > (
        self.equipped_location_chance as u64) {
            let empty = String::new();
            return empty;
        }
        let index = roller.roll_range(0, (self.equipped_locations.len() - 1) as u64) as usize;
        let chosen = self.equipped_locations[index].clone();
        proof {
            assert(chosen@ == self.equipped_locations@[index as int]@);
        }
        chosen
    }

    /// Generate the item and roll its placement: whether it is hidden
    /// and where it sits are independent draws against the caller's
    /// percentage thresholds. A hidden chance of one hundred or more
    /// always hides the item.
    pub fn generate<T>(&self, roller: &mut Roller) -> (r: EquippedItem<T>) where G: Generator<T>
        ensures
            r.multiple == self.multiple,
            self.hidden_chance >= 100 ==> r.hidden,
            r.equipped_location@ == Seq::<char>::empty() || exists|i: int|
                0 <= i < self.equipped_locations@.len() && r.equipped_location@ == (
                #[trigger] self.equipped_locations@[i])@,
            self.equipped_locations@.len() == 0 ==> r.equipped_location@ == Seq::<char>::empty(),
            self.equipped_locations@.len() > 0 && self.equipped_location_chance >= 100
                ==> exists|i: int|
                0 <= i < self.equipped_locations@.len() && r.equipped_location@ == (
                #[trigger] self.equipped_locations@[i])@,
    {
        let item = self.generator.generate(roller);
        let hidden_roll = roller.roll_range(0, 100);
        let equipped_location = self.equipped_location(roller);
        EquippedItem {
            item,
            equipped_location,
            hidden: hidden_roll <= (self.hidden_chance as u64),
            multiple: self.multiple,
        }
    }
}

impl<T, G: Generator<T>> Generator<EquippedItem<T>> for EquippedItemPrototype<G> {
    /// Delegates to the contracted inherent method.
    fn generate(&self, roller: &mut Roller) -> EquippedItem<T> {
        EquippedItemPrototype::<G>::generate(self, roller)
    }
}

} // verus!
