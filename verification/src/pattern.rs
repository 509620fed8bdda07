//! First-match search with the `regex` crate.
use vstd::prelude::*;

use crate::text::is_substring;

verus! {

/// The text of the first match of the regular expression `pattern` in
/// `haystack`, as the `regex` crate finds it (leftmost-first); `None` when
/// there is no match or the pattern does not compile. Its value is the
/// `regex` crate's, not stated here.
pub uninterp spec fn regex_first_match(pattern: Seq<char>, haystack: Seq<char>) -> Option<Seq<char>>;

/// The characters of an optional string.
pub open spec fn opt_view(o: Option<String>) -> Option<Seq<char>> {
    match o {
        Some(s) => Some(s@),
        None => None,
    }
}

/// Trusted: compiles `pattern` with `regex::Regex::new` and returns the text
/// of the first match that `regex::Regex::find` reports in `haystack`
/// (`Match::as_str`); `None` when `find` reports none or compilation fails.
/// Claimed: the result is `regex_first_match` of the two arguments, and a
/// match is a contiguous piece of the haystack, as `Match::as_str` is
/// documented to be. Nothing is stated about which piece the engine picks.
#[verifier::external_body]
pub(crate) fn first_match(pattern: &str, haystack: &str) -> (r: Option<String>)
    ensures
        opt_view(r) == regex_first_match(pattern@, haystack@),
        r matches Some(m) ==> is_substring(m@, haystack@),
{
    match regex::Regex::new(pattern) {
        Ok(re) => re.find(haystack).map(|m| m.as_str().to_string()),
        Err(_) => None,
    }
}

} // verus!
