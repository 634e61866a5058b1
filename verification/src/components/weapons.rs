use vstd::prelude::*;
use vstd::string::StringExecFns;

verus! {

/// Kinds of weapons.
#[derive(Clone, Copy, Debug, PartialEq, Eq, Structural)]
pub enum WeaponType {
    Club,
    Dagger,
    Hammer,
    LongSword,
    ShortSword,
    Whip,
}

impl WeaponType {
    /// The noun used for this kind in composed descriptions.
    pub open spec fn spec_describe(self) -> Seq<char> {
        match self {
            WeaponType::Club => "club"@,
            WeaponType::Dagger => "dagger"@,
            WeaponType::Hammer => "hammer"@,
            WeaponType::LongSword => "long sword"@,
            WeaponType::ShortSword => "short sword"@,
            WeaponType::Whip => "whip"@,
        }
    }

    pub fn describe(&self) -> (r: String)
        ensures
            r@ == self.spec_describe(),
    {
        match *self {
            WeaponType::Club => String::from_str("club"),
            WeaponType::Dagger => String::from_str("dagger"),
            WeaponType::Hammer => String::from_str("hammer"),
            WeaponType::LongSword => String::from_str("long sword"),
            WeaponType::ShortSword => String::from_str("short sword"),
            WeaponType::Whip => String::from_str("whip"),
        }
    }
}

} // verus!
