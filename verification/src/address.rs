//! The path of a URL, as the `url` crate reads it.
//!
//! Parsing follows the URL standard and is that crate's work. What this
//! library needs of a parsed URL is its path segments, and these it takes
//! over as plain strings.

use vstd::prelude::*;

verus! {

/// The error type of the `url` crate's parser, carried through unread.
#[verifier::external_type_specification]
#[verifier::external_body]
pub struct ExParseError(url::ParseError);

/// What the `url` crate makes of an address: `None` where `Url::parse`
/// rejects it, else whatever `Url::path_segments` gives for the parsed URL,
/// which is `None` for a URL that cannot be a base and otherwise the
/// segments of its path in order.
pub uninterp spec fn url_path_segments(url: Seq<char>) -> Option<Option<Seq<Seq<char>>>>;

/// Calls `url::Url::parse` and hands out the result's
/// `Url::path_segments`, each segment copied into a `String`. Not verified:
/// the contract only names the outcome, as a function of the address alone,
/// and says that a failure of the parser is passed on.
#[verifier::external_body]
pub(crate) fn parse_path_segments(url: &str) -> (r: Result<Option<Vec<String>>, url::ParseError>)
    ensures
        match r {
            Ok(path) => url_path_segments(url@) == Some(path.deep_view()),
            Err(_) => url_path_segments(url@) is None,
        },
{
    match url::Url::parse(url) {
        Ok(parsed) => Ok(parsed.path_segments().map(|parts| parts.map(String::from).collect())),
        Err(error) => Err(error),
    }
}

} // verus!
