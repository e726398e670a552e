//! The address that a content window is opened on.

use vstd::prelude::*;
use vstd::string::*;
use crate::error::Error;
use crate::text::{has_prefix, starts_with};

verus! {

#[verifier::external_type_specification]
#[verifier::external_body]
pub struct ExParseError(url::ParseError);

/// What marks an address that already names its scheme.
pub const SCHEME_MARK: &'static str = "http";

/// What is put before an address that names no scheme.
pub const DEFAULT_SCHEME: &'static str = "https://";

/// The serialization of the URL that the `url` crate reads out of `input`;
/// `None` where it reads no absolute URL out of it.
pub uninterp spec fn parsed(input: Seq<char>) -> Option<Seq<char>>;

/// `url::Url::parse`, and of the URL it gives the serialization that the
/// `Url` holds. Believed, not proved: the outcome is a function of the input
/// text alone, [`parsed`]; on an error there is none.
#[verifier::external_body]
fn parse(input: &str) -> (r: Result<String, url::ParseError>)
    ensures
        match r {
            Ok(s) => parsed(input@) == Some(s@),
            Err(_) => parsed(input@) is None,
        },
{
    match url::Url::parse(input) {
        Ok(u) => Ok(String::from(u)),
        Err(e) => Err(e),
    }
}

/// The address as it is handed to the parser: with `https://` before it
/// unless it begins with `http`.
pub open spec fn normalized(url: Seq<char>) -> Seq<char> {
    if has_prefix(url, SCHEME_MARK@) {
        url
    } else {
        DEFAULT_SCHEME@ + url
    }
}

/// What [`resolve`] gives for an address, once the parser has spoken.
pub open spec fn resolved(url: Seq<char>) -> Result<Seq<char>, Error> {
    match parsed(normalized(url)) {
        Some(s) => Ok(s),
        None => Err(Error::InvalidUrl),
    }
}

/// Puts `https://` before an address that does not begin with `http`.
pub fn normalize(url: &str) -> (r: String)
    ensures
        r@ == normalized(url@),
{
    if starts_with(url, SCHEME_MARK) {
        String::from_str(url)
    } else {
        String::from_str(DEFAULT_SCHEME).concat(url)
    }
}

/// The view of a result that holds text.
pub open spec fn text_of(r: Result<String, Error>) -> Result<Seq<char>, Error> {
    match r {
        Ok(s) => Ok(s@),
        Err(e) => Err(e),
    }
}

/// Reads the address that the user typed: normalizes it, and has it parsed
/// as an absolute URL. Gives the URL's serialization, or `InvalidUrl`.
pub fn resolve(url: &str) -> (r: Result<String, Error>)
    ensures
        text_of(r) == resolved(url@),
{
    let full = normalize(url);
    match parse(full.as_str()) {
        Ok(s) => Ok(s),
        Err(_) => Err(Error::InvalidUrl),
    }
}

} // verus!
