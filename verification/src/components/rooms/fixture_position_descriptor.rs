use vstd::prelude::*;
use vstd::string::StringExecFns;

use super::descriptor_position::DescriptorPosition;

verus! {

/// Positional phrases a fixture group can carry.
#[derive(Clone, Copy, Debug, PartialEq, Eq, Structural)]
pub enum FixturePositionDescriptor {
    CrackedAndBrokenOnTheGround,
    InTheCornerStands,
    IsInTheCorner,
    SitsAlongOneSide,
    StandsInTheCorner,
}

impl FixturePositionDescriptor {
    /// Whether this phrase renders before or after the noun phrase.
    pub open spec fn spec_descriptor_position(self) -> DescriptorPosition {
        match self {
            FixturePositionDescriptor::CrackedAndBrokenOnTheGround => DescriptorPosition::Post,
            FixturePositionDescriptor::InTheCornerStands => DescriptorPosition::Pre,
            FixturePositionDescriptor::IsInTheCorner => DescriptorPosition::Post,
            FixturePositionDescriptor::SitsAlongOneSide => DescriptorPosition::Post,
            FixturePositionDescriptor::StandsInTheCorner => DescriptorPosition::Post,
        }
    }

    pub fn descriptor_position(&self) -> (r: DescriptorPosition)
        ensures
            r == self.spec_descriptor_position(),
    {
        match *self {
            FixturePositionDescriptor::CrackedAndBrokenOnTheGround => DescriptorPosition::Post,
            FixturePositionDescriptor::InTheCornerStands => DescriptorPosition::Pre,
            FixturePositionDescriptor::IsInTheCorner => DescriptorPosition::Post,
            FixturePositionDescriptor::SitsAlongOneSide => DescriptorPosition::Post,
            FixturePositionDescriptor::StandsInTheCorner => DescriptorPosition::Post,
        }
    }

    pub open spec fn spec_is_pre(self) -> bool {
        self.spec_descriptor_position() == DescriptorPosition::Pre
    }

    pub open spec fn spec_is_post(self) -> bool {
        self.spec_descriptor_position() == DescriptorPosition::Post
    }

    pub fn is_pre(&self) -> (r: bool)
        ensures
            r == self.spec_is_pre(),
    {
        self.descriptor_position() == DescriptorPosition::Pre
    }

    pub fn is_post(&self) -> (r: bool)
        ensures
            r == self.spec_is_post(),
    {
        self.descriptor_position() == DescriptorPosition::Post
    }

    /// The words for this phrase.
    pub open spec fn spec_describe(self) -> Seq<char> {
        match self {
            FixturePositionDescriptor::CrackedAndBrokenOnTheGround => (
            "cracked and broken on the ground"@),
            FixturePositionDescriptor::InTheCornerStands => "in the corner stands"@,
            FixturePositionDescriptor::IsInTheCorner => "is in the corner"@,
            FixturePositionDescriptor::SitsAlongOneSide => "sits along one side"@,
            FixturePositionDescriptor::StandsInTheCorner => "stands in the corner"@,
        }
    }

    pub fn describe(&self) -> (r: String)
        ensures
            r@ == self.spec_describe(),
    {
        match *self {
            FixturePositionDescriptor::CrackedAndBrokenOnTheGround => String::from_str(
                "cracked and broken on the ground",
            ),
            FixturePositionDescriptor::InTheCornerStands => String::from_str(
                "in the corner stands",
            ),
            FixturePositionDescriptor::IsInTheCorner => String::from_str("is in the corner"),
            FixturePositionDescriptor::SitsAlongOneSide => String::from_str("sits along one side"),
            FixturePositionDescriptor::StandsInTheCorner => String::from_str(
                "stands in the corner",
            ),
        }
    }
}

} // verus!
