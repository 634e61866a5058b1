use vstd::prelude::*;

verus! {

/// Descriptive qualities an item can carry.
#[derive(Clone, Copy, Debug, PartialEq, Eq, Structural)]
pub enum ObjectDescriptor {
    Bleached,
    Dingy,
    Rusty,
    SetOf,
    Shiny,
    Tarnished,
}

} // verus!
