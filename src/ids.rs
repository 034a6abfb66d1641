//! Identifiers are UUIDs, held as their 128-bit values; their text forms are
//! read and written by the `uuid` crate.

use vstd::prelude::*;

verus! {

/// The value that the `uuid` crate reads from a text, if it reads one.
pub uninterp spec fn uuid_parsed(s: Seq<char>) -> Option<u128>;

/// The hyphenated lower-case text that the `uuid` crate writes for a value.
pub uninterp spec fn uuid_text(id: u128) -> Seq<char>;

/// Relies on `uuid::Uuid::parse_str`, which reads the simple, hyphenated,
/// braced and URN forms and refuses every other text.
#[verifier::external_body]
pub(crate) fn parse_uuid(s: &str) -> (r: Option<u128>)
    ensures
        r == uuid_parsed(s@),
{
    match uuid::Uuid::parse_str(s) {
        Ok(u) => Some(u.as_u128()),
        Err(_) => None,
    }
}

/// Relies on the `Display` of `uuid::Uuid`, which writes the hyphenated
/// lower-case form: 32 hex digits and 4 hyphens.
#[verifier::external_body]
pub(crate) fn uuid_to_text(id: u128) -> (r: String)
    ensures
        r@ == uuid_text(id),
        r@.len() == 36,
{
    uuid::Uuid::from_u128(id).to_string()
}

} // verus!
