//! Confirmation tokens: 128-bit identifiers and their text form.

use vstd::prelude::*;
use crate::errors::{from_uuid_error, AuthError, ErrorKind};

verus! {

/// What `uuid::Uuid::parse_str` makes of a text: the identifier's 128 bits,
/// or `None` where the text is no identifier.
pub uninterp spec fn uuid_parse(text: Seq<char>) -> Option<u128>;

/// The text that `uuid::Uuid` prints for an identifier.
pub uninterp spec fn uuid_text(id: u128) -> Seq<char>;

/// Calls `uuid::Uuid::parse_str` and, on success, `Uuid::as_u128`. The result
/// is a function of the text alone, named [`uuid_parse`]; the error is the
/// crate's own.
#[verifier::external_body]
fn parse_uuid(text: &str) -> (r: Result<u128, uuid::Error>)
    ensures
        match r {
            Ok(id) => uuid_parse(text@) == Some(id),
            Err(_) => uuid_parse(text@) is None,
        },
{
    match uuid::Uuid::parse_str(text) {
        Ok(id) => Ok(id.as_u128()),
        Err(e) => Err(e),
    }
}

/// Calls `uuid::Uuid::from_u128` and prints the identifier with its `Display`,
/// which is its hyphenated lower-case form. The result is named
/// [`uuid_text`]; `Uuid::parse_str` reads every form that the crate prints,
/// so parsing the text gives the identifier back.
#[verifier::external_body]
pub(crate) fn print_uuid(id: u128) -> (text: String)
    ensures
        text@ == uuid_text(id),
        uuid_parse(text@) == Some(id),
{
    uuid::Uuid::from_u128(id).to_string()
}

/// Calls `uuid::Uuid::new_v4`, which draws 16 bytes from the operating
/// system's random source, and returns them as `Uuid::as_u128` does. Nothing
/// is claimed of the value.
#[verifier::external_body]
pub(crate) fn random_uuid() -> u128 {
    uuid::Uuid::new_v4().as_u128()
}

/// What parsing a token's text gives: the identifier, or `BadId`.
pub open spec fn parsed_token(text: Seq<char>) -> Result<u128, (ErrorKind, Seq<char>)> {
    match uuid_parse(text) {
        Some(id) => Ok(id),
        None => Err((ErrorKind::BadId, Seq::<char>::empty())),
    }
}

/// Reads a token from its external text form.
pub fn parse_token(text: &str) -> (r: Result<u128, AuthError>)
    ensures
        match r {
            Ok(id) => parsed_token(text@) == Ok::<u128, (ErrorKind, Seq<char>)>(id),
            Err(e) => parsed_token(text@) == Err::<u128, (ErrorKind, Seq<char>)>(e@),
        },
{
    match parse_uuid(text) {
        Ok(id) => Ok(id),
        Err(e) => Err(from_uuid_error(e)),
    }
}

/// The external text form of a token: the text that [`parse_token`] reads
/// back as this token.
pub fn token_text(id: u128) -> (text: String)
    ensures
        text@ == uuid_text(id),
        parsed_token(text@) == Ok::<u128, (ErrorKind, Seq<char>)>(id),
{
    print_uuid(id)
}

} // verus!
