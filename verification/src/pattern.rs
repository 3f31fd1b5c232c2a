//! Regular expressions over text, through the `regex` crate.

use vstd::prelude::*;
use crate::k8s::opt_chars;

verus! {

/// Whether `regex::Regex::new` accepts a pattern.
pub uninterp spec fn regex_compiles(pattern: Seq<char>) -> bool;

/// What `regex::Regex::replace_all` gives for the regex of a pattern, a
/// haystack, and a replacement.
pub uninterp spec fn regex_replaced(pattern: Seq<char>, haystack: Seq<char>, replacement: Seq<char>) -> Seq<char>;

/// Compile `pattern` with `regex::Regex::new` and replace every
/// non-overlapping match in `haystack` with `replacement` through
/// `regex::Regex::replace_all`. The result is absent exactly when the pattern
/// does not compile; otherwise it is the replaced text, named by
/// [`regex_replaced`]. Nothing more is stated of the regex language.
#[verifier::external_body]
pub(crate) fn replace_matches(pattern: &str, haystack: &str, replacement: &str) -> (r: Option<String>)
    ensures
        r is Some <==> regex_compiles(pattern@),
        r matches Some(s) ==> s@ == regex_replaced(pattern@, haystack@, replacement@),
{
    match regex::Regex::new(pattern) {
        Ok(re) => Some(re.replace_all(haystack, replacement).into_owned()),
        Err(_) => None,
    }
}

/// The text after replacing the matches of a pattern, or the text itself
/// when the pattern does not compile.
pub open spec fn replaced_or_same(pattern: Seq<char>, text: Seq<char>, replacement: Seq<char>) -> Seq<char> {
    if regex_compiles(pattern) {
        regex_replaced(pattern, text, replacement)
    } else {
        text
    }
}

/// What `regex::Regex::captures_iter` yields for the regex of a pattern over
/// a haystack: for each match, left to right, the text of each capture group,
/// group 0 (the whole match) first, absent for a group that took no part.
pub uninterp spec fn regex_captures(pattern: Seq<char>, haystack: Seq<char>) -> Seq<Seq<Option<Seq<char>>>>;

/// The capture groups of each match, as plain values.
pub open spec fn capture_views(v: Seq<Vec<Option<String>>>) -> Seq<Seq<Option<Seq<char>>>> {
    v.map_values(|c: Vec<Option<String>>| c@.map_values(|g: Option<String>| opt_chars(g)))
}

/// Compile `pattern` with `regex::Regex::new` and collect, through
/// `regex::Regex::captures_iter`, the capture groups of every match in
/// `haystack`. The result is absent exactly when the pattern does not
/// compile; otherwise it is what [`regex_captures`] names.
#[verifier::external_body]
pub(crate) fn capture_all(pattern: &str, haystack: &str) -> (r: Option<Vec<Vec<Option<String>>>>)
    ensures
        r is Some <==> regex_compiles(pattern@),
        r matches Some(c) ==> capture_views(c@) == regex_captures(pattern@, haystack@),
{
    match regex::Regex::new(pattern) {
        Ok(re) => Some(
            re.captures_iter(haystack).map(|c| c.iter().map(|g| g.map(|m| m.as_str().to_owned())).collect()).collect(),
        ),
        Err(_) => None,
    }
}

/// The captures of every match, or none when the pattern does not compile.
pub open spec fn captures_or_none(pattern: Seq<char>, haystack: Seq<char>) -> Seq<Seq<Option<Seq<char>>>> {
    if regex_compiles(pattern) {
        regex_captures(pattern, haystack)
    } else {
        Seq::empty()
    }
}

/// The capture groups of every match of `pattern` in `haystack`, or none
/// when the pattern does not compile.
pub fn captures_of(pattern: &str, haystack: &str) -> (r: Vec<Vec<Option<String>>>)
    ensures
        capture_views(r@) == captures_or_none(pattern@, haystack@),
{
    match capture_all(pattern, haystack) {
        Some(c) => c,
        None => {
            let r: Vec<Vec<Option<String>>> = Vec::new();
            assert(capture_views(r@) =~= Seq::empty());
            r
        },
    }
}

/// Capture group `k` of one match, absent when the match has no such group.
pub open spec fn group(c: Seq<Option<Seq<char>>>, k: int) -> Option<Seq<char>> {
    if 0 <= k < c.len() {
        c[k]
    } else {
        None
    }
}

/// Compute [`group`].
pub fn group_of(c: &Vec<Option<String>>, k: usize) -> (r: Option<String>)
    ensures
        opt_chars(r) == group(c@.map_values(|g: Option<String>| opt_chars(g)), k as int),
{
    if k < c.len() {
        match &c[k] {
            Some(s) => Some(s.clone()),
            None => None,
        }
    } else {
        None
    }
}

} // verus!
