//! Calls into the uuid crate for identifiers.

use vstd::prelude::*;

verus! {

/// Relies on uuid's `Uuid::new_v4` and `Uuid::as_u128`: a freshly drawn
/// random identifier. The value is random, so nothing is assumed about it.
#[verifier::external_body]
pub(crate) fn fresh_id() -> u128 {
    uuid::Uuid::new_v4().as_u128()
}

/// The identifier that uuid's `Uuid::parse_str` reads from a string, if any;
/// a function of the string alone.
pub uninterp spec fn parsed_uuid_of(s: Seq<char>) -> Option<u128>;

/// Relies on uuid's `Uuid::parse_str` and `Uuid::as_u128`: the result is a
/// function of the input string alone.
#[verifier::external_body]
pub(crate) fn parse_uuid(s: &str) -> (r: Option<u128>)
    ensures
        r == parsed_uuid_of(s@),
{
    match uuid::Uuid::parse_str(s) {
        Ok(u) => Some(u.as_u128()),
        Err(_) => None,
    }
}

} // verus!
