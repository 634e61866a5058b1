use vstd::prelude::*;

verus! {

/// Relative size of a fixture or creature.
#[derive(Clone, Copy, Debug, PartialEq, Eq, Structural)]
pub enum Size {
    Small,
    Average,
    Large,
    Huge,
}

} // verus!
