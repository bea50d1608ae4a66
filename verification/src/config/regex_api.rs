//! Trusted boundary to the `regex` crate.
//!
//! A compiled `regex::Regex` is opaque to the verifier. The contracts
//! below say only what the crate's source shows: a regex remembers the
//! pattern text it was compiled from, and whether it compiles or
//! matches is a function of that text (and the haystack) alone.

use vstd::prelude::*;

verus! {

#[verifier::external_type_specification]
#[verifier::external_body]
pub struct ExRegex(regex::Regex);

#[verifier::external_type_specification]
#[verifier::external_body]
pub struct ExRegexError(regex::Error);

/// The pattern text a compiled regex was built from (`regex::Regex::as_str`).
pub uninterp spec fn regex_source_of(r: regex::Regex) -> Seq<char>;

/// Whether `regex::Regex::new` accepts a pattern text.
pub uninterp spec fn regex_accepts(pat: Seq<char>) -> bool;

/// Whether a regex compiled from `pat` matches somewhere in `text`
/// (`regex::Regex::is_match`).
pub uninterp spec fn regex_match_of(pat: Seq<char>, text: Seq<char>) -> bool;

/// Relies on regex::Regex::new: success depends on the pattern text
/// alone, and the compiled regex keeps that text.
#[verifier::external_body]
pub(crate) fn regex_new(pat: &str) -> (r: Result<regex::Regex, regex::Error>)
    ensures
        r is Ok <==> regex_accepts(pat@),
        r is Ok ==> regex_source_of(r->Ok_0) == pat@,
{
    regex::Regex::new(pat)
}

/// Relies on regex::Regex::as_str: it returns the pattern text the
/// regex was compiled from.
#[verifier::external_body]
pub(crate) fn regex_as_str(r: &regex::Regex) -> (s: &str)
    ensures
        s@ == regex_source_of(*r),
{
    r.as_str()
}

/// Relies on regex::Regex::is_match: the result depends on the pattern
/// text and the haystack alone.
#[verifier::external_body]
pub(crate) fn regex_is_match(r: &regex::Regex, haystack: &str) -> (b: bool)
    ensures
        b == regex_match_of(regex_source_of(*r), haystack@),
{
    r.is_match(haystack)
}

} // verus!
