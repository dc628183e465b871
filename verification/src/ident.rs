//! Identities of documents and owners: their text and their 128-bit value.

use vstd::prelude::*;

verus! {

/// What `uuid::Uuid::parse_str` makes of a text: the 128-bit value of the
/// identifier it spells, or nothing where it spells none.
pub uninterp spec fn uuid_parsed(text: Seq<char>) -> Option<u128>;

/// The text that `uuid` prints for a 128-bit identifier.
pub uninterp spec fn uuid_text(id: u128) -> Seq<char>;

/// Calls `uuid::Uuid::parse_str` and takes the identifier's value with
/// `as_u128`. The result is what the parser makes of the text and of
/// nothing else; the parser accepts no text shorter than 32 characters, so
/// an accepted text is not empty.
#[verifier::external_body]
fn uuid_parse_str(text: &str) -> (id: Option<u128>)
    ensures
        id == uuid_parsed(text@),
        id is Some ==> text@.len() > 0,
{
    match uuid::Uuid::parse_str(text) {
        Ok(id) => Some(id.as_u128()),
        Err(_) => None,
    }
}

/// Builds the identifier with `uuid::Uuid::from_u128` and prints it with
/// its `Display`: 36 characters, lower-case hexadecimal digits in five
/// hyphenated groups, which the parser reads back as the same value.
#[verifier::external_body]
fn uuid_to_string(id: u128) -> (text: String)
    ensures
        text@ == uuid_text(id),
        text@.len() == 36,
        uuid_parsed(text@) == Some(id),
{
    uuid::Uuid::from_u128(id).to_string()
}

/// Reads an identity from its text.
pub fn parse_id(text: &str) -> (id: Option<u128>)
    ensures
        id == uuid_parsed(text@),
        text@.len() == 0 ==> id is None,
{
    uuid_parse_str(text)
}

/// Writes an identity as text. The text is never empty and reads back as
/// the same identity.
pub fn format_id(id: u128) -> (text: String)
    ensures
        text@ == uuid_text(id),
        text@.len() > 0,
        uuid_parsed(text@) == Some(id),
{
    uuid_to_string(id)
}

} // verus!
