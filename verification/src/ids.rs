//! Identifiers stored as text: users and events are keyed by UUIDs, which
//! the API handles as the 128-bit value `Uuid::as_u128` gives.

use vstd::prelude::*;

verus! {

/// The UUID an identifier text denotes, as `uuid::Uuid::parse_str` reads
/// it, or `None` when the text is not a UUID.
pub uninterp spec fn uuid_value(text: Seq<char>) -> Option<u128>;

/// `uuid::Uuid::parse_str` followed by `Uuid::as_u128`. The contract claims
/// that the outcome is a function of the text alone, named `uuid_value`;
/// which texts the parser accepts is left unsaid.
#[verifier::external_body]
pub(crate) fn parse_uuid(text: &str) -> (r: Option<u128>)
    ensures
        r == uuid_value(text@),
{
    match uuid::Uuid::parse_str(text) {
        Ok(id) => Some(id.as_u128()),
        Err(_) => None,
    }
}

} // verus!
