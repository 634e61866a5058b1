use vstd::prelude::*;

verus! {

/// A unique id (128-bit value) with an optional display name, assigned
/// when an entity is generated and immutable afterwards.
#[derive(Debug)]
pub struct Identifier {
    pub id: u128,
    pub name: Option<String>,
}

/// The mathematical model of an [`Identifier`].
#[verifier::ext_equal]
pub ghost struct IdentifierM {
    pub id: u128,
    pub name: Option<Seq<char>>,
}

/// The model of an optional display name.
pub open spec fn name_model(n: Option<String>) -> Option<Seq<char>> {
    match n {
        Some(s) => Some(s@),
        None => None,
    }
}

impl Identifier {
    /// The mathematical model of this identifier.
    pub open spec fn model(self) -> IdentifierM {
        IdentifierM { id: self.id, name: name_model(self.name) }
    }
}

impl Clone for Identifier {
    fn clone(&self) -> (r: Self)
        ensures
            r.model() == self.model(),
    {
        let name = match &self.name {
            Some(n) => Some(n.clone()),
            None => None,
        };
        Identifier { id: self.id, name }
    }
}

/// A projection of an identifier for an observer: the id is always
/// visible, the display name only once it has been learned.
#[derive(Debug)]
pub struct IdentifierView {
    pub id: u128,
    pub name: Option<String>,
    pub name_known: bool,
}

/// The mathematical model of an [`IdentifierView`].
#[verifier::ext_equal]
pub ghost struct IdentifierViewM {
    pub id: u128,
    pub name: Option<Seq<char>>,
    pub name_known: bool,
}

impl IdentifierView {
    /// The mathematical model of this projection.
    pub open spec fn model(self) -> IdentifierViewM {
        IdentifierViewM { id: self.id, name: name_model(self.name), name_known: self.name_known }
    }
}

impl Clone for IdentifierView {
    fn clone(&self) -> (r: Self)
        ensures
            r.model() == self.model(),
    {
        let name = match &self.name {
            Some(n) => Some(n.clone()),
            None => None,
        };
        IdentifierView { id: self.id, name, name_known: self.name_known }
    }
}

} // verus!
