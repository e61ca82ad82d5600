//! UUIDs of services and characteristics: 128-bit values in the library, text
//! on the wire. Text is written and read by the `uuid` crate.

use vstd::prelude::*;

verus! {

/// The text that the `uuid` crate writes for the UUID with the 128-bit value
/// `value`.
pub uninterp spec fn uuid_text(value: u128) -> Seq<char>;

/// The 128-bit value of the UUID that the `uuid` crate reads from `text`, or
/// `None` where it reads none.
pub uninterp spec fn uuid_parse(text: Seq<char>) -> Option<u128>;

/// Writes a UUID with `uuid::Uuid`'s `Display`, the hyphenated lower-case form.
/// The text is a function of the value alone, and it is one of the forms that
/// `uuid::Uuid::parse_str` is documented to read back, as the same UUID.
#[verifier::external_body]
pub(crate) fn format_uuid(value: u128) -> (text: String)
    ensures
        text@ == uuid_text(value),
        uuid_parse(text@) == Some(value),
{
    uuid::Uuid::from_u128(value).to_string()
}

/// Reads a UUID with `uuid::Uuid::parse_str`, which takes the simple, the
/// hyphenated, the URN and the braced form. The result is a function of the
/// text alone.
#[verifier::external_body]
pub(crate) fn parse_uuid(text: &str) -> (value: Option<u128>)
    ensures
        value == uuid_parse(text@),
{
    match uuid::Uuid::parse_str(text) {
        Ok(uuid) => Some(uuid.as_u128()),
        Err(_) => None,
    }
}

} // verus!
