use vstd::prelude::*;

verus! {

/// Whether a positional descriptor renders before or after the noun
/// phrase it decorates.
#[derive(Clone, Copy, Debug, PartialEq, Eq, Structural)]
pub enum DescriptorPosition {
    Pre,
    Post,
}

} // verus!
