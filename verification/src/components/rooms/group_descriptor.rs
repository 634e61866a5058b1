use vstd::prelude::*;
use vstd::string::StringExecFns;

verus! {

/// How a group of fixtures or NPCs is counted out in a description.
#[derive(Clone, Copy, Debug, PartialEq, Eq, Structural)]
pub enum GroupDescriptor {
    A,
    AFew,
    AGangOf,
    AHandfulOf,
}

impl GroupDescriptor {
    /// The words for this group.
    pub open spec fn spec_describe(self) -> Seq<char> {
        match self {
            GroupDescriptor::A => "a"@,
            GroupDescriptor::AFew => "a few"@,
            GroupDescriptor::AGangOf => "a gang of"@,
            GroupDescriptor::AHandfulOf => "a handful of"@,
        }
    }

    pub fn describe(&self) -> (r: String)
        ensures
            r@ == self.spec_describe(),
    {
        match *self {
            GroupDescriptor::A => String::from_str("a"),
            GroupDescriptor::AFew => String::from_str("a few"),
            GroupDescriptor::AGangOf => String::from_str("a gang of"),
            GroupDescriptor::AHandfulOf => String::from_str("a handful of"),
        }
    }
}

} // verus!
