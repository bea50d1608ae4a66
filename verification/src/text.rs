//! Text helpers: case folding and substring search for literal
//! patterns, and string equality.
//!
//! Case folding is done by `str::to_lowercase`, whose result is far too
//! involved to restate; it is only named here (`lower_of`). Substring
//! containment has a direct mathematical statement, so `str::contains`
//! is given that statement.

use vstd::prelude::*;

verus! {

/// `s2` occurs as a contiguous substring of `s1`.
pub open spec fn contains_sub(s1: Seq<char>, s2: Seq<char>) -> bool {
    exists|i: int|
        0 <= i && i + s2.len() <= s1.len() && #[trigger] s1.subrange(i, i + s2.len() as int) == s2
}

/// What `str::to_lowercase` returns: a function of the characters alone.
pub uninterp spec fn lower_of(s: Seq<char>) -> Seq<char>;

/// Relies on str::to_lowercase: the result depends on the characters
/// of the input alone.
#[verifier::external_body]
pub(crate) fn to_lower(s: &str) -> (r: String)
    ensures
        r@ == lower_of(s@),
{
    s.to_lowercase()
}

/// Relies on str::contains: it is true exactly when the needle occurs
/// as a substring of the haystack.
#[verifier::external_body]
pub(crate) fn str_contains(hay: &str, needle: &str) -> (r: bool)
    ensures
        r == contains_sub(hay@, needle@),
{
    hay.contains(needle)
}

/// Relies on str's PartialEq: two string slices are equal exactly when
/// their characters are.
#[verifier::external_body]
pub(crate) fn str_eq(s1: &str, s2: &str) -> (r: bool)
    ensures
        r == (s1@ == s2@),
{
    s1 == s2
}

} // verus!
