use vstd::prelude::*;

verus! {

/// Where on (or about) a character an item can sit.
#[derive(Clone, Copy, Debug, PartialEq, Eq, Structural)]
pub enum LocationTag {
    Ankle,
    Body,
    Equipped,
    Feet,
    Hand,
    Head,
    Leg,
    Packed,
    Shoulder,
    Waist,
    Wrist,
}

} // verus!
