use vstd::prelude::*;

verus! {

/// The id, if any, that the uuid crate reads out of a piece of id text;
/// it depends on the characters alone.
pub uninterp spec fn uuid_of_text(s: Seq<char>) -> Option<u128>;

/// Relies on uuid::Uuid::parse_str and uuid::Uuid::as_u128: whether text
/// parses as a UUID, and as which 128-bit value, is a function of the
/// characters alone; parse_str returns an error rather than panicking.
#[verifier::external_body]
pub fn parse_id(text: &str) -> (r: Option<u128>)
    ensures
        r == uuid_of_text(text@),
{
    match uuid::Uuid::parse_str(text) {
        Ok(parsed) => Some(parsed.as_u128()),
        Err(_) => None,
    }
}

/// Relies on uuid::Uuid::new_v4 and uuid::Uuid::as_u128: a freshly drawn
/// random id; nothing can be promised about its value.
#[verifier::external_body]
pub fn random_id() -> (r: u128) {
    uuid::Uuid::new_v4().as_u128()
}

} // verus!
