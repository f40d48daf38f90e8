//! Identifiers as text.

use vstd::prelude::*;

verus! {

/// What `uuid::Uuid` writes, through `Display`, for the identifier whose 128
/// bits are `id`.
pub uninterp spec fn uuid_text(id: u128) -> Seq<char>;

/// Calls `uuid::Uuid::from_u128` and writes the identifier it makes through
/// `Display`: the hyphenated form in lower case. The text depends on the bits
/// alone.
#[verifier::external_body]
pub(crate) fn format_uuid(id: u128) -> (text: String)
    ensures
        text@ == uuid_text(id),
{
    uuid::Uuid::from_u128(id).to_string()
}

} // verus!
