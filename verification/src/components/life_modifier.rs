use vstd::prelude::*;
use vstd::string::StringExecFns;

verus! {

/// A modifier that alters how a character is described, without
/// changing any of its other behaviour.
#[derive(Clone, Copy, Debug, PartialEq, Eq, Structural)]
pub enum LifeModifier {
    Skeleton,
    Vampire,
    Zombie,
}

impl LifeModifier {
    /// The noun for this modifier.
    pub open spec fn spec_describe(self) -> Seq<char> {
        match self {
            LifeModifier::Skeleton => "skeleton"@,
            LifeModifier::Vampire => "vampire"@,
            LifeModifier::Zombie => "zombie"@,
        }
    }

    /// The adjective form of this modifier.
    pub open spec fn spec_as_adjective(self) -> Seq<char> {
        match self {
            LifeModifier::Skeleton => "skeletal"@,
            LifeModifier::Vampire => "vampiric"@,
            LifeModifier::Zombie => "zombified"@,
        }
    }

    pub fn describe(&self) -> (r: String)
        ensures
            r@ == self.spec_describe(),
    {
        match *self {
            LifeModifier::Skeleton => String::from_str("skeleton"),
            LifeModifier::Vampire => String::from_str("vampire"),
            LifeModifier::Zombie => String::from_str("zombie"),
        }
    }

    pub fn as_adjective(&self) -> (r: String)
        ensures
            r@ == self.spec_as_adjective(),
    {
        match *self {
            LifeModifier::Skeleton => String::from_str("skeletal"),
            LifeModifier::Vampire => String::from_str("vampiric"),
            LifeModifier::Zombie => String::from_str("zombified"),
        }
    }
}

} // verus!
