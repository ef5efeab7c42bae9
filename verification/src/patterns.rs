//! Regular expressions, as the `regex` crate compiles and matches them.

use vstd::prelude::*;
use regex::Regex;

verus! {

#[verifier::external_type_specification]
#[verifier::external_body]
pub struct ExRegex(regex::Regex);

#[verifier::external_type_specification]
#[verifier::external_body]
pub struct ExRegexError(regex::Error);

/// The text of the error that `Regex::new` fails with on the pattern, or
/// nothing where it accepts the pattern.
pub uninterp spec fn regex_failure(pattern: Seq<char>) -> Option<Seq<char>>;

/// The text that a `regex::Error` displays.
pub uninterp spec fn regex_error_display(e: regex::Error) -> Seq<char>;

/// Whether the regex compiled from the pattern matches anywhere in the text.
pub uninterp spec fn regex_matches(pattern: Seq<char>, text: Seq<char>) -> bool;

/// The pattern a regex was compiled from.
pub uninterp spec fn regex_source(re: Regex) -> Seq<char>;

/// `Regex::new`: compiles a pattern. Whether it succeeds, and with which
/// error it fails, depends on the pattern alone; the regex keeps the
/// pattern it was given.
#[verifier::external_body]
pub(crate) fn compile_regex(pattern: &str) -> (r: Result<Regex, regex::Error>)
    ensures
        r is Ok <==> regex_failure(pattern@) is None,
        r matches Ok(re) ==> regex_source(re) == pattern@,
        r matches Err(e) ==> regex_failure(pattern@) == Some(regex_error_display(e)),
{
    Regex::new(pattern)
}

/// `Regex::is_match`: whether the regex matches anywhere in the text.
#[verifier::external_body]
pub(crate) fn regex_is_match(re: &Regex, text: &str) -> (hit: bool)
    ensures
        hit == regex_matches(regex_source(*re), text@),
{
    re.is_match(text)
}

/// `regex::Error`'s `Display`, through `to_string`: the text that the error
/// displays.
#[verifier::external_body]
pub(crate) fn regex_error_text(e: &regex::Error) -> (text: String)
    ensures
        text@ == regex_error_display(*e),
{
    e.to_string()
}

} // verus!
