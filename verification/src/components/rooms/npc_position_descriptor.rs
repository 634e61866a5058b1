use vstd::prelude::*;
use vstd::string::StringExecFns;

use super::descriptor_position::DescriptorPosition;

verus! {

/// Positional phrases an NPC group can carry.
#[derive(Clone, Copy, Debug, PartialEq, Eq, Structural)]
pub enum NpcPositionDescriptor {
    AreGlaringAtYou,
    AreGlaringAtYouFromNearby,
    IsGlaringAtYou,
    IsGlaringAtYouFromNearby,
    AreInTheCorner,
    InTheCornerAre,
    InCornerStands,
    AreLoiteringAbout,
    AreStandingAround,
    IsStandingAround,
    LeansAgainstTheTable,
    AreLeaningAgainstTheTable,
    IsLeaningAgainstTheTable,
    StandsOnTheTable,
    AreStandingOnTheTable,
    IsStandingOnTheTable,
    IsSittingInAChair,
    AreSittingInChairs,
    IsStandingInABarrel,
    IsSleepingInTheBed,
    IsSleepingInACot,
    IsSleepingInSleepingRoll,
    AreLeaningOnACrate,
    IsLeaningOnACrate,
    AreLookingAtTheWeaponRack,
    IsLookingAtTheWeaponRack,
    IsCrouchedOverChest,
    IsRummagingThroughAChest,
    AreCrouchedInTheCenterOfRoom,
    IsCrouchedInTheCenterOfRoom,
    IsSittingAndDozingInCenterOfRoom,
    SittingInAChairIs,
}

impl NpcPositionDescriptor {
    /// Whether this phrase renders before or after the noun phrase.
    pub open spec fn spec_descriptor_position(self) -> DescriptorPosition {
        match self {
            NpcPositionDescriptor::InTheCornerAre => DescriptorPosition::Pre,
            NpcPositionDescriptor::InCornerStands => DescriptorPosition::Pre,
            NpcPositionDescriptor::SittingInAChairIs => DescriptorPosition::Pre,
            _ => DescriptorPosition::Post,
        }
    }

    pub fn descriptor_position(&self) -> (r: DescriptorPosition)
        ensures
            r == self.spec_descriptor_position(),
    {
        match *self {
            NpcPositionDescriptor::InTheCornerAre => DescriptorPosition::Pre,
            NpcPositionDescriptor::InCornerStands => DescriptorPosition::Pre,
            NpcPositionDescriptor::SittingInAChairIs => DescriptorPosition::Pre,
            _ => DescriptorPosition::Post,
        }
    }

    /// The compatibility table: two phrases cannot decorate the same
    /// position when this holds of either ordering.
    pub open spec fn spec_unable_to_be_used_with(self, other: NpcPositionDescriptor) -> bool {
        match self {
            NpcPositionDescriptor::AreGlaringAtYou => other.spec_is_post(),
            NpcPositionDescriptor::AreGlaringAtYouFromNearby => other.spec_is_post(),
            NpcPositionDescriptor::AreInTheCorner => other.spec_is_pre(),
            NpcPositionDescriptor::InCornerStands => other.spec_is_pre(),
            NpcPositionDescriptor::AreLoiteringAbout => other.spec_is_post(),
            NpcPositionDescriptor::AreStandingAround => other.spec_is_post(),
            NpcPositionDescriptor::IsGlaringAtYou => other.spec_is_post(),
            _ => false,
        }
    }

    pub fn unable_to_be_used_with(&self, other: NpcPositionDescriptor) -> (r: bool)
        ensures
            r == self.spec_unable_to_be_used_with(other),
    {
        match *self {
            NpcPositionDescriptor::AreGlaringAtYou => other.is_post(),
            NpcPositionDescriptor::AreGlaringAtYouFromNearby => other.is_post(),
            NpcPositionDescriptor::AreInTheCorner => other.is_pre(),
            NpcPositionDescriptor::InCornerStands => other.is_pre(),
            NpcPositionDescriptor::AreLoiteringAbout => other.is_post(),
            NpcPositionDescriptor::AreStandingAround => other.is_post(),
            NpcPositionDescriptor::IsGlaringAtYou => other.is_post(),
            _ => false,
        }
    }

    pub open spec fn spec_is_pre(self) -> bool {
        self.spec_descriptor_position() == DescriptorPosition::Pre
    }

    pub open spec fn spec_is_post(self) -> bool {
        self.spec_descriptor_position() == DescriptorPosition::Post
    }

    pub fn is_pre(&self) -> (r: bool)
        ensures
            r == self.spec_is_pre(),
    {
        self.descriptor_position() == DescriptorPosition::Pre
    }

    pub fn is_post(&self) -> (r: bool)
        ensures
            r == self.spec_is_post(),
    {
        self.descriptor_position() == DescriptorPosition::Post
    }

    /// The words for this phrase.
    pub open spec fn spec_describe(self) -> Seq<char> {
        match self {
            NpcPositionDescriptor::AreGlaringAtYouFromNearby => "are glaring at you from nearby"@,
            NpcPositionDescriptor::AreLoiteringAbout => "are loitering about"@,
            NpcPositionDescriptor::AreStandingAround => "are standing around"@,
            NpcPositionDescriptor::AreInTheCorner => "are in the corner"@,
            NpcPositionDescriptor::InCornerStands => "in the corner stands"@,
            NpcPositionDescriptor::AreGlaringAtYou => "are glaring at you"@,
            NpcPositionDescriptor::IsGlaringAtYou => "is glaring at you"@,
            NpcPositionDescriptor::IsGlaringAtYouFromNearby => "is glaring at you from nearby"@,
            NpcPositionDescriptor::IsStandingAround => "is standing around"@,
            NpcPositionDescriptor::LeansAgainstTheTable => "leans against the table"@,
            NpcPositionDescriptor::AreLeaningAgainstTheTable => "are leaning against the table"@,
            NpcPositionDescriptor::IsLeaningAgainstTheTable => "is leaning against the table"@,
            NpcPositionDescriptor::StandsOnTheTable => "stands on the table"@,
            NpcPositionDescriptor::AreStandingOnTheTable => "are standing on the table"@,
            NpcPositionDescriptor::IsStandingOnTheTable => "is standing on the table"@,
            NpcPositionDescriptor::IsSittingInAChair => "is sitting in a chair"@,
            NpcPositionDescriptor::AreSittingInChairs => "are sitting in chairs"@,
            NpcPositionDescriptor::IsStandingInABarrel => "is standing in a barrel"@,
            NpcPositionDescriptor::IsSleepingInTheBed => "is sleeping in the bed"@,
            NpcPositionDescriptor::IsSleepingInACot => "is sleeping in a cot"@,
            NpcPositionDescriptor::IsSleepingInSleepingRoll => "is sleeping in a sleeping roll"@,
            NpcPositionDescriptor::AreLeaningOnACrate => "are leaning on a crate"@,
            NpcPositionDescriptor::IsLeaningOnACrate => "is leaning on a crate"@,
            NpcPositionDescriptor::AreLookingAtTheWeaponRack => "are looking at the weapon rack"@,
            NpcPositionDescriptor::IsLookingAtTheWeaponRack => "is looking at the weapon rack"@,
            NpcPositionDescriptor::IsCrouchedOverChest => "is crouched over a chest"@,
            NpcPositionDescriptor::AreCrouchedInTheCenterOfRoom => (
            "are crouched in the center of the room"@),
            NpcPositionDescriptor::IsCrouchedInTheCenterOfRoom => (
            "is crouched in the center of the room"@),
            NpcPositionDescriptor::IsSittingAndDozingInCenterOfRoom => (
            "is sitting and dozing in center of the room"@),
            NpcPositionDescriptor::SittingInAChairIs => "sitting in a chair is"@,
            NpcPositionDescriptor::IsRummagingThroughAChest => "is rummaging through a chest"@,
            NpcPositionDescriptor::InTheCornerAre => "in the corner are"@,
        }
    }

    pub fn describe(&self) -> (r: String)
        ensures
            r@ == self.spec_describe(),
    {
        match *self {
            NpcPositionDescriptor::AreGlaringAtYouFromNearby => String::from_str(
                "are glaring at you from nearby",
            ),
            NpcPositionDescriptor::AreLoiteringAbout => String::from_str("are loitering about"),
            NpcPositionDescriptor::AreStandingAround => String::from_str("are standing around"),
            NpcPositionDescriptor::AreInTheCorner => String::from_str("are in the corner"),
            NpcPositionDescriptor::InCornerStands => String::from_str("in the corner stands"),
            NpcPositionDescriptor::AreGlaringAtYou => String::from_str("are glaring at you"),
            NpcPositionDescriptor::IsGlaringAtYou => String::from_str("is glaring at you"),
            NpcPositionDescriptor::IsGlaringAtYouFromNearby => String::from_str(
                "is glaring at you from nearby",
            ),
            NpcPositionDescriptor::IsStandingAround => String::from_str("is standing around"),
            NpcPositionDescriptor::LeansAgainstTheTable => String::from_str(
                "leans against the table",
            ),
            NpcPositionDescriptor::AreLeaningAgainstTheTable => String::from_str(
                "are leaning against the table",
            ),
            NpcPositionDescriptor::IsLeaningAgainstTheTable => String::from_str(
                "is leaning against the table",
            ),
            NpcPositionDescriptor::StandsOnTheTable => String::from_str("stands on the table"),
            NpcPositionDescriptor::AreStandingOnTheTable => String::from_str(
                "are standing on the table",
            ),
            NpcPositionDescriptor::IsStandingOnTheTable => String::from_str(
                "is standing on the table",
            ),
            NpcPositionDescriptor::IsSittingInAChair => String::from_str("is sitting in a chair"),
            NpcPositionDescriptor::AreSittingInChairs => String::from_str("are sitting in chairs"),
            NpcPositionDescriptor::IsStandingInABarrel => String::from_str(
                "is standing in a barrel",
            ),
            NpcPositionDescriptor::IsSleepingInTheBed => String::from_str(
                "is sleeping in the bed",
            ),
            NpcPositionDescriptor::IsSleepingInACot => String::from_str("is sleeping in a cot"),
            NpcPositionDescriptor::IsSleepingInSleepingRoll => String::from_str(
                "is sleeping in a sleeping roll",
            ),
            NpcPositionDescriptor::AreLeaningOnACrate => String::from_str(
                "are leaning on a crate",
            ),
            NpcPositionDescriptor::IsLeaningOnACrate => String::from_str("is leaning on a crate"),
            NpcPositionDescriptor::AreLookingAtTheWeaponRack => String::from_str(
                "are looking at the weapon rack",
            ),
            NpcPositionDescriptor::IsLookingAtTheWeaponRack => String::from_str(
                "is looking at the weapon rack",
            ),
            NpcPositionDescriptor::IsCrouchedOverChest => String::from_str(
                "is crouched over a chest",
            ),
            NpcPositionDescriptor::AreCrouchedInTheCenterOfRoom => String::from_str(
                "are crouched in the center of the room",
            ),
            NpcPositionDescriptor::IsCrouchedInTheCenterOfRoom => String::from_str(
                "is crouched in the center of the room",
            ),
            NpcPositionDescriptor::IsSittingAndDozingInCenterOfRoom => String::from_str(
                "is sitting and dozing in center of the room",
            ),
            NpcPositionDescriptor::SittingInAChairIs => String::from_str("sitting in a chair is"),
            NpcPositionDescriptor::IsRummagingThroughAChest => String::from_str(
                "is rummaging through a chest",
            ),
            NpcPositionDescriptor::InTheCornerAre => String::from_str("in the corner are"),
        }
    }
}

} // verus!
