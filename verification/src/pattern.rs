//! Regular expressions, matched by the `regex` crate.

use vstd::prelude::*;

verus! {

/// Whether the regular expression `pattern` matches somewhere in `text`,
/// or `None` where `pattern` is no regular expression.
pub uninterp spec fn regex_matched(pattern: Seq<char>, text: Seq<char>) -> Option<bool>;

/// Whether `pattern` matches somewhere in `text`.
///
/// Trusted: compiles the pattern with `regex::Regex::new` and calls
/// `Regex::is_match`. The contract claims that the outcome is the one
/// [`regex_matched`] names, `None` standing for a pattern that does not
/// compile.
#[verifier::external_body]
pub(crate) fn regex_match(pattern: &str, text: &str) -> (matched: Option<bool>)
    ensures
        matched == regex_matched(pattern@, text@),
{
    regex::Regex::new(pattern).ok().map(|re| re.is_match(text))
}

} // verus!
