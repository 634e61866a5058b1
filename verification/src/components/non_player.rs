use vstd::prelude::*;

use super::character::{Character, CharacterM, CharacterView, CharacterViewArgs, CharacterViewM};
use super::identifier::{Identifier, IdentifierM, IdentifierView, IdentifierViewM};

verus! {

/// An NPC: a character owned by the room it stands in.
#[derive(Debug)]
pub struct NonPlayer {
    pub identifier: Identifier,
    pub character: Character,
}

/// The mathematical model of a [`NonPlayer`].
#[verifier::ext_equal]
pub ghost struct NonPlayerM {
    pub identifier: IdentifierM,
    pub character: CharacterM,
}

impl NonPlayerM {
    pub open spec fn wf(self) -> bool {
        self.character.wf()
    }
}

impl NonPlayer {
    /// The mathematical model of this NPC.
    pub open spec fn model(self) -> NonPlayerM {
        NonPlayerM { identifier: self.identifier.model(), character: self.character.model() }
    }
}

impl Clone for NonPlayer {
    fn clone(&self) -> (r: Self)
        ensures
            r.model() == self.model(),
    {
        let r = NonPlayer {
            identifier: self.identifier.clone(),
            character: self.character.clone(),
        };
        proof {
            assert(r.model() =~= self.model());
        }
        r
    }
}

/// An NPC as one observer sees it.
#[derive(Debug)]
pub struct NonPlayerView {
    pub identifier: IdentifierView,
    pub character: CharacterView,
}

/// The mathematical model of a [`NonPlayerView`].
#[verifier::ext_equal]
pub ghost struct NonPlayerViewM {
    pub identifier: IdentifierViewM,
    pub character: CharacterViewM,
}

impl NonPlayerView {
    /// The mathematical model of this projection.
    pub open spec fn model(self) -> NonPlayerViewM {
        NonPlayerViewM { identifier: self.identifier.model(), character: self.character.model() }
    }
}

/// Which parts of an NPC an observer is entitled to see.
#[derive(Clone, Copy, Debug)]
pub struct NonPlayerViewArgs {
    pub character_args: CharacterViewArgs,
    pub knows_name: bool,
}

impl Default for NonPlayerViewArgs {
    /// By default an observer knows nothing.
    fn default() -> (r: Self)
        ensures
            r.knows_name == false,
            r.character_args == (CharacterViewArgs {
                knows_health: false,
                knows_species: false,
                knows_life_modifier: false,
                knows_inventory: false,
                knows_hidden_in_inventory: false,
                knows_packed_in_inventory: false,
            }),
    {
        NonPlayerViewArgs { character_args: Default::default(), knows_name: false }
    }
}

} // verus!
