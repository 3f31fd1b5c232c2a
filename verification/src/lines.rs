//! Lines, whitespace trimming, and substring search over character sequences,
//! as the text checks of the workspace use them.

use vstd::prelude::*;
use crate::order::views;
use crate::sanitize::split_at_breaks;
use crate::text::{chars_of, string_from_chars};

verus! {

/// Unicode white space, as `char::is_whitespace` defines it.
pub open spec fn is_space(c: char) -> bool {
    ('\u{9}' <= c <= '\u{d}') || c == ' ' || c == '\u{85}' || c == '\u{a0}' || c == '\u{1680}'
        || ('\u{2000}' <= c <= '\u{200a}') || c == '\u{2028}' || c == '\u{2029}' || c == '\u{202f}'
        || c == '\u{205f}' || c == '\u{3000}'
}

/// Decide [`is_space`].
pub fn is_space_char(c: char) -> (r: bool)
    ensures
        r == is_space(c),
{
    ('\u{9}' <= c && c <= '\u{d}') || c == ' ' || c == '\u{85}' || c == '\u{a0}' || c == '\u{1680}'
        || ('\u{2000}' <= c && c <= '\u{200a}') || c == '\u{2028}' || c == '\u{2029}' || c
        == '\u{202f}' || c == '\u{205f}' || c == '\u{3000}'
}

/// `s` without leading white space.
pub open spec fn trim_start(s: Seq<char>) -> Seq<char>
    decreases s.len(),
{
    if s.len() > 0 && is_space(s[0]) {
        trim_start(s.drop_first())
    } else {
        s
    }
}

/// `s` without trailing white space.
pub open spec fn trim_end(s: Seq<char>) -> Seq<char>
    decreases s.len(),
{
    if s.len() > 0 && is_space(s.last()) {
        trim_end(s.drop_last())
    } else {
        s
    }
}

/// `s` without leading or trailing white space.
pub open spec fn trim(s: Seq<char>) -> Seq<char> {
    trim_end(trim_start(s))
}

/// Compute [`trim_start`].
pub fn trim_start_chars(s: &[char]) -> (r: Vec<char>)
    ensures
        r@ == trim_start(s@),
{
    let n = s.len();
    let mut i: usize = 0;
    assert(s@.skip(0) =~= s@);
    while i < n && is_space_char(s[i])
        invariant
            n == s@.len(),
            i <= n,
            trim_start(s@) == trim_start(s@.skip(i as int)),
        decreases n - i,
    {
        assert(s@.skip(i as int).drop_first() =~= s@.skip(i + 1));
        i = i + 1;
    }
    let mut r: Vec<char> = Vec::new();
    let mut k: usize = i;
    while k < n
        invariant
            n == s@.len(),
            i <= k <= n,
            r@ == s@.subrange(i as int, k as int),
        decreases n - k,
    {
        r.push(s[k]);
        assert(r@ =~= s@.subrange(i as int, k + 1));
        k = k + 1;
    }
    assert(r@ =~= s@.skip(i as int));
    r
}

/// Compute [`trim_end`].
pub fn trim_end_chars(s: &[char]) -> (r: Vec<char>)
    ensures
        r@ == trim_end(s@),
{
    let mut j: usize = s.len();
    assert(s@.take(j as int) =~= s@);
    while j > 0 && is_space_char(s[j - 1])
        invariant
            j <= s@.len(),
            trim_end(s@) == trim_end(s@.take(j as int)),
        decreases j,
    {
        assert(s@.take(j as int).drop_last() =~= s@.take(j - 1));
        j = j - 1;
    }
    let mut r: Vec<char> = Vec::new();
    let mut k: usize = 0;
    while k < j
        invariant
            j <= s@.len(),
            k <= j,
            r@ == s@.take(k as int),
        decreases j - k,
    {
        r.push(s[k]);
        assert(r@ =~= s@.take(k + 1));
        k = k + 1;
    }
    r
}

/// Compute [`trim`].
pub fn trim_chars(s: &[char]) -> (r: Vec<char>)
    ensures
        r@ == trim(s@),
{
    let a = trim_start_chars(s);
    trim_end_chars(&a)
}

/// A line without the carriage return that ends it, if any.
pub open spec fn strip_cr(l: Seq<char>) -> Seq<char> {
    if l.len() > 0 && l.last() == '\r' {
        l.drop_last()
    } else {
        l
    }
}

/// The lines of `s` as `str::lines` gives them: split at line feeds, a
/// carriage return before a line feed dropped, and no empty line after a
/// final line feed.
pub open spec fn text_lines(s: Seq<char>) -> Seq<Seq<char>> {
    let (complete, rest) = split_at_breaks(s);
    let done = Seq::new(complete.len(), |i: int| strip_cr(complete[i]));
    if rest.len() > 0 {
        done.push(rest)
    } else {
        done
    }
}

/// Compute [`text_lines`].
pub fn lines_of(s: &str) -> (r: Vec<Vec<char>>)
    ensures
        views(r@) == text_lines(s@),
{
    let v = chars_of(s);
    let mut lines: Vec<Vec<char>> = Vec::new();
    let mut cur: Vec<char> = Vec::new();
    let n = v.len();
    for i in 0..n
        invariant
            n == v@.len(),
            v@ == s@,
            views(lines@) == Seq::new(split_at_breaks(v@.take(i as int)).0.len(), |q: int| strip_cr(split_at_breaks(v@.take(i as int)).0[q])),
            cur@ == split_at_breaks(v@.take(i as int)).1,
    {
        assert(v@.take(i + 1).drop_last() =~= v@.take(i as int));
        if v[i] == '\n' {
            let ghost before = lines@;
            let mut done = cur;
            let k = done.len();
            if k > 0 && done[k - 1] == '\r' {
                done.pop();
            }
            assert(done@ == strip_cr(split_at_breaks(v@.take(i as int)).1));
            lines.push(done);
            cur = Vec::new();
            assert(views(lines@) =~= views(before).push(done@));
            assert(views(lines@) =~= Seq::new(split_at_breaks(v@.take(i + 1)).0.len(), |q: int| strip_cr(split_at_breaks(v@.take(i + 1)).0[q])));
        } else {
            cur.push(v[i]);
        }
    }
    assert(v@.take(n as int) =~= v@);
    if cur.len() > 0 {
        let ghost before = lines@;
        let c = cur;
        lines.push(c);
        assert(views(lines@) =~= views(before).push(c@));
    }
    lines
}

/// `s` starts with `p`.
pub open spec fn starts_with(s: Seq<char>, p: Seq<char>) -> bool {
    p.len() <= s.len() && s.take(p.len() as int) == p
}

/// `t` occurs in `s` at position `i`.
pub open spec fn occurs_at(s: Seq<char>, t: Seq<char>, i: int) -> bool {
    0 <= i && i + t.len() <= s.len() && s.subrange(i, i + t.len()) == t
}

/// `t` occurs somewhere in `s`.
pub open spec fn contains_text(s: Seq<char>, t: Seq<char>) -> bool {
    exists|i: int| #[trigger] occurs_at(s, t, i)
}

/// Decide whether `t` occurs in `s` at position `i`.
pub fn occurs_here(s: &[char], t: &[char], i: usize) -> (r: bool)
    ensures
        r == occurs_at(s@, t@, i as int),
{
    let n = s.len();
    if i > n || t.len() > n - i {
        return false;
    }
    let mut k: usize = 0;
    while k < t.len()
        invariant
            n == s@.len(),
            i + t@.len() <= s@.len(),
            k <= t@.len(),
            forall|q: int| 0 <= q < k ==> s@[i + q] == t@[q],
        decreases t@.len() - k,
    {
        if s[i + k] != t[k] {
            assert(s@.subrange(i as int, i + t@.len())[k as int] != t@[k as int]);
            return false;
        }
        k = k + 1;
    }
    assert(s@.subrange(i as int, i + t@.len()) =~= t@);
    true
}

/// Decide whether `s` starts with `p`.
pub fn starts_with_chars(s: &[char], p: &[char]) -> (r: bool)
    ensures
        r == starts_with(s@, p@),
{
    let r = occurs_here(s, p, 0);
    proof {
        if p@.len() <= s@.len() {
            assert(s@.subrange(0, p@.len() as int) =~= s@.take(p@.len() as int));
        }
    }
    r
}

/// Decide whether `t` occurs in `s`.
pub fn contains_chars(s: &[char], t: &[char]) -> (r: bool)
    ensures
        r == contains_text(s@, t@),
{
    let n = s.len();
    for i in 0..n
        invariant
            n == s@.len(),
            forall|q: int| 0 <= q < i ==> !#[trigger] occurs_at(s@, t@, q),
    {
        if occurs_here(s, t, i) {
            return true;
        }
    }
    if occurs_here(s, t, n) {
        return true;
    }
    assert forall|q: int| !#[trigger] occurs_at(s@, t@, q) by {
        if 0 <= q && q < n {
        }
    }
    false
}

/// Build a string from characters.
pub fn string_of_chars(v: &[char]) -> (r: String)
    ensures
        r@ == v@,
{
    string_from_chars(v)
}

/// Decide whether `t` occurs in `s`.
pub fn text_contains(s: &str, t: &str) -> (r: bool)
    ensures
        r == contains_text(s@, t@),
{
    let sv = chars_of(s);
    let tv = chars_of(t);
    contains_chars(sv.as_slice(), tv.as_slice())
}

} // verus!
