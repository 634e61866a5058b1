use vstd::prelude::*;

verus! {

/// The typed failures an action can resolve to. Lookup failures carry
/// the id that was not found; a malformed id carries the offending text.
#[derive(Debug)]
pub enum Errors {
    InvalidIdFormat(String),
    ExitNotFound(u128),
    FixtureNotFound(u128),
    NpcNotFound(u128),
    SpellNotFound(u128),
}

/// The mathematical model of an [`Errors`] value.
#[verifier::ext_equal]
pub ghost enum ErrorsM {
    InvalidIdFormat(Seq<char>),
    ExitNotFound(u128),
    FixtureNotFound(u128),
    NpcNotFound(u128),
    SpellNotFound(u128),
}

impl Errors {
    /// The mathematical model of this error.
    pub open spec fn model(self) -> ErrorsM {
        match self {
            Errors::InvalidIdFormat(text) => ErrorsM::InvalidIdFormat(text@),
            Errors::ExitNotFound(id) => ErrorsM::ExitNotFound(id),
            Errors::FixtureNotFound(id) => ErrorsM::FixtureNotFound(id),
            Errors::NpcNotFound(id) => ErrorsM::NpcNotFound(id),
            Errors::SpellNotFound(id) => ErrorsM::SpellNotFound(id),
        }
    }
}

} // verus!
