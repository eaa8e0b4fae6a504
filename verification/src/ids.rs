//! Identifiers. An identifier is a 128-bit number; its text is the
//! hyphenated form of [`uuid_text`].

use vstd::prelude::*;

use crate::text::uuid_text;

verus! {

/// What `uuid::Uuid::parse_str` reads in a text: the identifier as a number,
/// or nothing where the text has none of the accepted forms.
pub uninterp spec fn parsed_uuid(text: Seq<char>) -> Option<u128>;

/// Calls `uuid::Uuid::now_v7`. The identifier depends on the clock and on
/// chance; what holds of every one is that its version field reads 7 and its
/// variant bits read binary 10.
#[verifier::external_body]
pub(crate) fn fresh_id() -> (r: u128)
    ensures
        (r >> 76) & 0xf == 7,
        (r >> 62) & 0x3 == 2,
{
    uuid::Uuid::now_v7().as_u128()
}

/// Calls `uuid::Uuid`'s `to_string`: the hyphenated form in lower case.
#[verifier::external_body]
pub(crate) fn id_text(id: u128) -> (r: String)
    ensures
        r@ == uuid_text(id),
{
    uuid::Uuid::from_u128(id).to_string()
}

/// Calls `uuid::Uuid::parse_str`. The result is a function of the text, and
/// the hyphenated form of an identifier reads back as that identifier.
#[verifier::external_body]
pub(crate) fn parse_id(text: &str) -> (r: Option<u128>)
    ensures
        r == parsed_uuid(text@),
        forall|id: u128| text@ == #[trigger] uuid_text(id) ==> r == Some(id),
{
    uuid::Uuid::parse_str(text).ok().map(|id| id.as_u128())
}

}
