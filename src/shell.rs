//! Splitting a command line into words.

use vstd::prelude::*;

verus! {

/// The words that POSIX-style shell splitting makes of `s`, or `None` where
/// its quoting or escaping is malformed.
pub uninterp spec fn shell_words_of(s: Seq<char>) -> Option<Seq<Seq<char>>>;

/// The views of a sequence of strings.
pub open spec fn strings_view(v: Seq<String>) -> Seq<Seq<char>> {
    v.map_values(|s: String| s@)
}

/// Relies on `shlex::split`: it splits by POSIX shell rules, the result
/// depends on the text alone, and `None` marks malformed quoting.
#[verifier::external_body]
pub(crate) fn split_words(s: &str) -> (r: Option<Vec<String>>)
    ensures
        match r {
            Some(w) => shell_words_of(s@) == Some(strings_view(w@)),
            None => shell_words_of(s@) is None,
        },
{
    shlex::split(s)
}

} // verus!
