use vstd::prelude::*;

verus! {

/// Broad categories an object can be tagged with.
#[derive(Clone, Copy, Debug, PartialEq, Eq, Structural)]
pub enum ObjectTag {
    Accessory,
    Armour,
    Blade,
    Blunt,
    Clothing,
    Rope,
}

} // verus!
