//! Session tokens: 128-bit identifiers written as hyphenated UUID text.
use vstd::prelude::*;

verus! {

/// The identifier that a text names in any of the forms a UUID parser reads.
pub uninterp spec fn uuid_parsed(text: Seq<char>) -> Option<u128>;

/// The hyphenated lower-case text of an identifier.
pub uninterp spec fn uuid_text(token: u128) -> Seq<char>;

/// Relies on `uuid::Uuid::parse_str`: the identifier that the text writes, or
/// an error where it writes none.
#[verifier::external_body]
pub(crate) fn parse_token(text: &str) -> (r: Option<u128>)
    ensures
        r == uuid_parsed(text@),
{
    match uuid::Uuid::parse_str(text) {
        Ok(u) => Some(u.as_u128()),
        Err(_) => None,
    }
}

/// Relies on uuid's `Display` of `Uuid::from_u128`: hyphenated text, which
/// `Uuid::parse_str` reads back to the same identifier.
#[verifier::external_body]
pub(crate) fn format_token(token: u128) -> (r: String)
    ensures
        r@ == uuid_text(token),
        uuid_parsed(r@) == Some(token),
{
    uuid::Uuid::from_u128(token).to_string()
}

/// Relies on `uuid::Uuid::new_v4`: a random identifier, of which nothing is
/// promised.
#[verifier::external_body]
pub(crate) fn random_token() -> (r: u128) {
    uuid::Uuid::new_v4().as_u128()
}

/// The text form of a token.
pub fn token_text(token: u128) -> (r: String)
    ensures
        r@ == uuid_text(token),
        uuid_parsed(r@) == Some(token),
{
    format_token(token)
}

} // verus!
