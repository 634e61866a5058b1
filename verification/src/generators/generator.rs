use vstd::prelude::*;

use crate::utils::rolls::Roller;

verus! {

/// Something that can produce a value of `T` from a prototype, drawing
/// randomness only from the roller it is handed.
pub trait Generator<T> {
    fn generate(&self, roller: &mut Roller) -> T;
}

} // verus!
