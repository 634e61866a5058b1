use vstd::prelude::*;
use vstd::string::StringExecFns;

verus! {

/// The fixed set of species an NPC can belong to.
#[derive(Clone, Copy, Debug, PartialEq, Eq, Structural)]
pub enum Species {
    Bugbear,
    Goblin,
    Kobold,
    Ogre,
    Orc,
    Unknown,
}

impl Species {
    /// The singular noun for this species.
    pub open spec fn spec_describe(self) -> Seq<char> {
        match self {
            Species::Bugbear => "bugbear"@,
            Species::Goblin => "goblin"@,
            Species::Kobold => "kobold"@,
            Species::Ogre => "ogre"@,
            Species::Orc => "orc"@,
            Species::Unknown => "mysterious being"@,
        }
    }

    /// The plural noun for this species.
    pub open spec fn spec_describe_plural(self) -> Seq<char> {
        match self {
            Species::Bugbear => "bugbears"@,
            Species::Goblin => "goblins"@,
            Species::Kobold => "kobolds"@,
            Species::Ogre => "ogres"@,
            Species::Orc => "orcs"@,
            Species::Unknown => "mysterious beings"@,
        }
    }

    /// How a group of `count` members of this species is described:
    /// the plural noun for more than one, the singular otherwise.
    pub open spec fn spec_describe_count(self, count: int) -> Seq<char> {
        if count > 1 {
            self.spec_describe_plural()
        } else {
            self.spec_describe()
        }
    }

    pub fn describe(&self) -> (r: String)
        ensures
            r@ == self.spec_describe(),
    {
        match *self {
            Species::Bugbear => String::from_str("bugbear"),
            Species::Goblin => String::from_str("goblin"),
            Species::Kobold => String::from_str("kobold"),
            Species::Ogre => String::from_str("ogre"),
            Species::Orc => String::from_str("orc"),
            Species::Unknown => String::from_str("mysterious being"),
        }
    }

    pub fn describe_plural(&self) -> (r: String)
        ensures
            r@ == self.spec_describe_plural(),
    {
        match *self {
            Species::Bugbear => String::from_str("bugbears"),
            Species::Goblin => String::from_str("goblins"),
            Species::Kobold => String::from_str("kobolds"),
            Species::Ogre => String::from_str("ogres"),
            Species::Orc => String::from_str("orcs"),
            Species::Unknown => String::from_str("mysterious beings"),
        }
    }

    pub fn describe_count(&self, count: usize) -> (r: String)
        ensures
            r@ == self.spec_describe_count(count as int),
    {
        if count > 1 {
            self.describe_plural()
        } else {
            self.describe()
        }
    }
}

} // verus!
