//! The grammars that guard every write to a request.
//!
//! Header names, header values and targets are judged by the HTTP types that
//! the host's request is built from. This module states what those judgements
//! are and gives them to verified code as plain values.

use vstd::prelude::*;
use std::str::FromStr;
use rama::http::{HeaderName, HeaderValue, Uri};

verus! {

/// The longest header name that is accepted, in characters.
pub const MAX_HEADER_NAME_LEN: usize = 65535;

/// A character of an HTTP token: a letter, a digit, or one of
/// ``! # $ % & ' * + - . ^ _ ` | ~``.
pub open spec fn is_token_char(c: char) -> bool {
    ||| 'a' <= c <= 'z'
    ||| 'A' <= c <= 'Z'
    ||| '0' <= c <= '9'
    ||| c == '!'
    ||| c == '#'
    ||| c == '$'
    ||| c == '%'
    ||| c == '&'
    ||| c == '\''
    ||| c == '*'
    ||| c == '+'
    ||| c == '-'
    ||| c == '.'
    ||| c == '^'
    ||| c == '_'
    ||| c == '`'
    ||| c == '|'
    ||| c == '~'
}

/// A header name is a token of 1 to 65535 characters.
pub open spec fn is_header_name(name: Seq<char>) -> bool {
    &&& 1 <= name.len() <= MAX_HEADER_NAME_LEN
    &&& forall|i: int| 0 <= i < name.len() ==> is_token_char(#[trigger] name[i])
}

/// An upper-case ASCII letter becomes its lower-case form; any other
/// character stays.
pub open spec fn fold_case(c: char) -> char {
    if 'A' <= c <= 'Z' {
        ((c as u32) + 32) as char
    } else {
        c
    }
}

/// The key under which a header name is looked up: its lower-case form.
/// Text that is no header name has no key.
pub open spec fn header_key(name: Seq<char>) -> Option<Seq<char>> {
    if is_header_name(name) {
        Some(name.map_values(|c: char| fold_case(c)))
    } else {
        None
    }
}

/// Two names denote the same header when both are header names with one key.
pub open spec fn same_header(a: Seq<char>, b: Seq<char>) -> bool {
    header_key(a) is Some && header_key(a) == header_key(b)
}

/// A character that may stand in a header value: anything but an ASCII
/// control character, with the horizontal tab allowed.
pub open spec fn is_value_char(c: char) -> bool {
    (c as u32 >= 32 && c as u32 != 127) || c == '\t'
}

/// A header value holds no control character but the tab. It may be empty.
pub open spec fn is_header_value(value: Seq<char>) -> bool {
    forall|i: int| 0 <= i < value.len() ==> is_value_char(#[trigger] value[i])
}

/// The canonical text of a target, or `None` for text that is no URI.
pub uninterp spec fn uri_canonical_form(text: Seq<char>) -> Option<Seq<char>>;

/// The way in which an argument of a write fails its grammar.
#[derive(Clone, Copy, Debug, PartialEq, Eq, Structural)]
pub enum ValidationError {
    InvalidHeaderName,
    InvalidHeaderValue,
    InvalidUri,
}

/// The verdict on a header before it is written: the name is judged first,
/// then the value.
pub open spec fn header_verdict(name: Seq<char>, value: Seq<char>) -> Result<(), ValidationError> {
    if !is_header_name(name) {
        Err(ValidationError::InvalidHeaderName)
    } else if !is_header_value(value) {
        Err(ValidationError::InvalidHeaderValue)
    } else {
        Ok(())
    }
}

/// The verdict on a target before it is written.
pub open spec fn uri_verdict(text: Seq<char>) -> Result<Seq<char>, ValidationError> {
    match uri_canonical_form(text) {
        Some(canonical) => Ok(canonical),
        None => Err(ValidationError::InvalidUri),
    }
}

/// `rama::http::HeaderName::from_str`, followed by `HeaderName::as_str`.
///
/// The parser accepts exactly the tokens of 1 to 65535 bytes and answers with
/// the name in lower case. Every token character is one byte long, so the
/// bound on bytes is a bound on characters.
#[verifier::external_body]
pub(crate) fn parse_header_name(name: &str) -> (key: Option<String>)
    ensures
        key is Some <==> is_header_name(name@),
        key matches Some(k) ==> header_key(name@) == Some(k@),
{
    HeaderName::from_str(name).ok().map(|parsed| parsed.as_str().to_string())
}

/// `rama::http::HeaderValue::from_str`.
///
/// The parser rejects a string exactly when one of its bytes is below 32 and
/// not the tab, or is 127. The bytes of a character beyond ASCII are all
/// above 127, so the test on bytes is a test on characters.
#[verifier::external_body]
pub(crate) fn parse_header_value(value: &str) -> (accepted: bool)
    ensures
        accepted == is_header_value(value@),
{
    HeaderValue::from_str(value).is_ok()
}

/// `rama::http::Uri::from_str`, followed by the `Display` of the parsed `Uri`.
///
/// What the parser accepts and how it writes a target out again is not
/// restated here: the result is given a name.
#[verifier::external_body]
pub(crate) fn parse_uri(text: &str) -> (canonical: Option<String>)
    ensures
        canonical is Some <==> uri_canonical_form(text@) is Some,
        canonical matches Some(c) ==> uri_canonical_form(text@) == Some(c@),
{
    Uri::from_str(text).ok().map(|uri| uri.to_string())
}

/// Judges a header and answers with the key of its name.
pub fn check_header(name: &str, value: &str) -> (verdict: Result<String, ValidationError>)
    ensures
        match verdict {
            Ok(key) => header_verdict(name@, value@) is Ok && header_key(name@) == Some(key@),
            Err(e) => header_verdict(name@, value@) == Err::<(), ValidationError>(e),
        },
{
    match parse_header_name(name) {
        None => Err(ValidationError::InvalidHeaderName),
        Some(key) => {
            if parse_header_value(value) {
                Ok(key)
            } else {
                Err(ValidationError::InvalidHeaderValue)
            }
        },
    }
}

/// Judges a target and answers with its canonical text.
pub fn check_uri(text: &str) -> (verdict: Result<String, ValidationError>)
    ensures
        match verdict {
            Ok(canonical) => uri_verdict(text@) == Ok::<Seq<char>, ValidationError>(canonical@),
            Err(e) => uri_verdict(text@) == Err::<Seq<char>, ValidationError>(e),
        },
{
    match parse_uri(text) {
        Some(canonical) => Ok(canonical),
        None => Err(ValidationError::InvalidUri),
    }
}

/// Whether `stored` is a header name with the key `key`.
pub fn has_header_key(stored: &str, key: &String) -> (same: bool)
    ensures
        same == (header_key(stored@) == Some(key@)),
{
    match parse_header_name(stored) {
        Some(stored_key) => stored_key == *key,
        None => false,
    }
}

/// The empty string is no header name.
pub proof fn lemma_empty_name_is_rejected(value: Seq<char>)
    ensures
        header_verdict(Seq::<char>::empty(), value) == Err::<(), ValidationError>(
            ValidationError::InvalidHeaderName,
        ),
{
}

} // verus!
