use vstd::prelude::*;

use super::character::{Character, CharacterM};
use super::identifier::{Identifier, IdentifierM};

verus! {

/// The player: a character owned by the game session itself.
#[derive(Debug)]
pub struct PlayerCharacter {
    pub identifier: Identifier,
    pub character: Character,
}

/// The mathematical model of a [`PlayerCharacter`].
#[verifier::ext_equal]
pub ghost struct PlayerCharacterM {
    pub identifier: IdentifierM,
    pub character: CharacterM,
}

impl PlayerCharacterM {
    pub open spec fn wf(self) -> bool {
        self.character.wf()
    }
}

impl PlayerCharacter {
    /// The mathematical model of this player.
    pub open spec fn model(self) -> PlayerCharacterM {
        PlayerCharacterM { identifier: self.identifier.model(), character: self.character.model() }
    }

    /// The validity invariant, stated on the model.
    pub open spec fn wf(self) -> bool {
        self.model().wf()
    }
}

impl Clone for PlayerCharacter {
    fn clone(&self) -> (r: Self)
        ensures
            r.model() == self.model(),
    {
        let r = PlayerCharacter {
            identifier: self.identifier.clone(),
            character: self.character.clone(),
        };
        proof {
            assert(r.model() =~= self.model());
        }
        r
    }
}

} // verus!
