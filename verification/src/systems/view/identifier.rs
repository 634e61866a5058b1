use vstd::prelude::*;

use crate::components::identifier::{Identifier, IdentifierM, IdentifierView, IdentifierViewM};

verus! {

/// The projection of an identifier: the id is always exposed, the
/// display name only when it is known.
pub open spec fn spec_identifier_view(identifier: IdentifierM, knows_name: bool) -> IdentifierViewM {
    IdentifierViewM {
        id: identifier.id,
        name: if knows_name {
            identifier.name
        } else {
            None
        },
        name_known: knows_name,
    }
}

/// Project an identifier for an observer.
pub fn to_view(identifier: &Identifier, knows_name: bool) -> (r: IdentifierView)
    ensures
        r.model() == spec_identifier_view(identifier.model(), knows_name),
{
    let name = if knows_name {
        match &identifier.name {
            Some(n) => Some(n.clone()),
            None => None,
        }
    } else {
        None
    };
    IdentifierView { id: identifier.id, name, name_known: knows_name }
}

} // verus!
