use vstd::prelude::*;

use super::characters::CharacterPrototype;
use crate::components::identifier::{name_model, Identifier};
use crate::components::non_player::NonPlayer;
use crate::utils::ids::random_id;
use crate::utils::rolls::Roller;

verus! {

/// A prototype for generating one NPC.
pub struct NonPlayerPrototype {
    pub name: Option<String>,
    pub character_generator: CharacterPrototype,
}

impl NonPlayerPrototype {
    /// Generate an NPC: a fresh id carrying the prototype's name, and a
    /// character from the nested prototype.
    pub fn generate(&self, roller: &mut Roller) -> (r: NonPlayer)
        ensures
            r.model().wf(),
            r.model().identifier.name == name_model(self.name),
            r.model().character.species == self.character_generator.species,
            r.model().character.life_modifier == self.character_generator.life_modifier,
    {
        let name = match &self.name {
            Some(n) => Some(n.clone()),
            None => None,
        };
        NonPlayer {
            identifier: Identifier { id: random_id(), name },
            character: self.character_generator.generate(roller),
        }
    }
}

} // verus!
