//! Regular-expression search, delegated to the `regex` crate.

use vstd::prelude::*;

verus! {

/// The capture groups of the leftmost-first match of the regular expression
/// `pattern` in `haystack`, as the `regex` crate computes them: one entry per
/// group in the order of the opening parentheses, entry 0 being the whole
/// match, and `None` for a group that took no part in the match.
///
/// The value is `None` when nothing in `haystack` matches, and also when
/// `pattern` is not a regular expression that the crate compiles.
pub uninterp spec fn leftmost_groups(pattern: Seq<char>, haystack: Seq<char>) -> Option<
    Seq<Option<Seq<char>>>,
>;

/// Compiles `pattern` with `regex::Regex::new` and searches `haystack` with
/// `Regex::captures`; the groups are read with `Captures::iter` and
/// `Match::as_str`.
///
/// Trusted: the result is taken to be exactly [`leftmost_groups`] of the two
/// arguments, which is a function of the pattern and the haystack alone.
#[verifier::external_body]
pub(crate) fn captures(pattern: &str, haystack: &str) -> (r: Option<Vec<Option<String>>>)
    ensures
        r.deep_view() == leftmost_groups(pattern@, haystack@),
{
    let re = regex::Regex::new(pattern).ok()?;
    let caps = re.captures(haystack)?;
    Some(caps.iter().map(|m| m.map(|m| m.as_str().to_string())).collect())
}

} // verus!
