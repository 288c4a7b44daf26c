//! Identifiers as they are written: the text form of a UUID.

use vstd::prelude::*;

verus! {

/// The identifier that `uuid::Uuid::parse_str` reads from a text, as 128 bits with the
/// first byte highest, or `None` where the text is no UUID.
pub uninterp spec fn uuid_of(text: Seq<char>) -> Option<u128>;

/// Trusted: `uuid::Uuid::parse_str`, read out with `Uuid::as_u128`. The parser looks
/// at the text alone, so the same text always gives the same answer.
#[verifier::external_body]
pub(crate) fn parse_id(text: &str) -> (r: Option<u128>)
    ensures
        r == uuid_of(text@),
{
    match uuid::Uuid::parse_str(text) {
        Ok(id) => Some(id.as_u128()),
        Err(_) => None,
    }
}

} // verus!
