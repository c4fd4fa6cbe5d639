//! Text helpers shared by the components: prefix and substring tests and
//! concatenation, specified over sequences of characters.

use vstd::prelude::*;

verus! {

/// `prefix` is an initial segment of `s`.
pub open spec fn is_prefix(prefix: Seq<char>, s: Seq<char>) -> bool {
    prefix.len() <= s.len() && s.subrange(0, prefix.len() as int) == prefix
}

/// `needle` occurs somewhere in `s` as a contiguous run of characters.
pub open spec fn occurs_in(needle: Seq<char>, s: Seq<char>) -> bool {
    exists|i: int|
        0 <= i && i + needle.len() <= s.len() && #[trigger] s.subrange(i, i + needle.len())
            == needle
}

/// Calls `str::starts_with` with a string pattern. The standard library
/// documents it as true exactly when the pattern matches a prefix of the
/// slice; this contract states that over the characters of both.
#[verifier::external_body]
pub(crate) fn starts_with(s: &str, prefix: &str) -> (found: bool)
    ensures
        found == is_prefix(prefix@, s@),
{
    s.starts_with(prefix)
}

/// Calls `str::contains` with a string pattern. The standard library
/// documents it as true exactly when the pattern matches a sub-slice of the
/// slice; this contract states that over the characters of both.
#[verifier::external_body]
pub(crate) fn contains(s: &str, needle: &str) -> (found: bool)
    ensures
        found == occurs_in(needle@, s@),
{
    s.contains(needle)
}

/// The text `a` followed by `b`.
pub fn concat2(a: &str, b: &str) -> (joined: String)
    ensures
        joined@ == a@ + b@,
{
    let mut joined = String::from_str(a);
    joined.append(b);
    joined
}

/// The text `a` followed by `b` and then `c`.
pub fn concat3(a: &str, b: &str, c: &str) -> (joined: String)
    ensures
        joined@ == a@ + b@ + c@,
{
    let mut joined = String::from_str(a);
    joined.append(b);
    joined.append(c);
    joined
}

} // verus!
