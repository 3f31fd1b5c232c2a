//! Text checks that keep the workspace honest: placeholder markers and
//! public items in sources, headings in Markdown, the CI toolchain pin, and
//! crate names in documentation.

use vstd::prelude::*;
use crate::lines::{
    contains_chars, contains_text, lines_of, occurs_at, occurs_here, starts_with, starts_with_chars, text_lines,
    trim, trim_chars, trim_start, trim_start_chars,
};
use crate::order::views;
use crate::text::chars_of;

verus! {

/// `line` is `keyword`, or starts with `keyword` and a space.
pub open spec fn starts_keyword(line: Seq<char>, keyword: Seq<char>) -> bool {
    line == keyword || starts_with(line, keyword + seq![' '])
}

/// Return whether `line` is `keyword` or starts with `keyword` and a space.
pub fn starts_public_keyword(line: &str, keyword: &str) -> (r: bool)
    ensures
        r == starts_keyword(line@, keyword@),
{
    let l = chars_of(line);
    let k = chars_of(keyword);
    starts_keyword_chars(&l, &k)
}

/// Decide [`starts_keyword`] on characters.
fn starts_keyword_chars(l: &Vec<char>, k: &Vec<char>) -> (r: bool)
    ensures
        r == starts_keyword(l@, k@),
{
    if l.len() == k.len() && starts_with_chars(l, k) {
        assert(l@ =~= l@.take(k@.len() as int));
        return true;
    }
    let mut ks = k.clone();
    ks.push(' ');
    proof {
        assert(ks@ =~= k@ + seq![' ']);
        if l@ == k@ {
            assert(l@.take(k@.len() as int) =~= l@);
        }
    }
    starts_with_chars(l, &ks)
}

/// A source line marks a placeholder: a public struct header whose line names
/// a placeholder.
pub open spec fn placeholder_line(l: Seq<char>) -> bool {
    starts_keyword(trim_start(l), "pub struct"@) && contains_text(l, "Placeholder"@)
}

/// A source line opens a public item other than a placeholder struct.
pub open spec fn public_item_line(l: Seq<char>) -> bool {
    let t = trim_start(l);
    ||| starts_keyword(t, "pub enum"@)
    ||| starts_keyword(t, "pub fn"@)
    ||| starts_keyword(t, "pub trait"@)
    ||| starts_keyword(t, "pub type"@)
    ||| starts_keyword(t, "pub const"@)
    ||| starts_keyword(t, "pub static"@)
    ||| (starts_keyword(t, "pub struct"@) && !contains_text(t, "Placeholder"@))
}

/// Return whether some line of `source` marks a placeholder struct.
pub fn has_placeholder_marker(source: &str) -> (r: bool)
    ensures
        r == exists|i: int| 0 <= i < text_lines(source@).len() && placeholder_line(#[trigger] text_lines(source@)[i]),
{
    let lines = lines_of(source);
    let kw = chars_of("pub struct");
    let marker = chars_of("Placeholder");
    let n = lines.len();
    for i in 0..n
        invariant
            n == lines@.len(),
            views(lines@) == text_lines(source@),
            kw@ == "pub struct"@,
            marker@ == "Placeholder"@,
            forall|q: int| 0 <= q < i ==> !placeholder_line(#[trigger] text_lines(source@)[q]),
    {
        assert(views(lines@)[i as int] == lines@[i as int]@);
        let t = trim_start_chars(&lines[i]);
        if starts_keyword_chars(&t, &kw) && contains_chars(&lines[i], &marker) {
            return true;
        }
    }
    false
}

/// Return whether some line of `source` opens a public item other than a
/// placeholder struct.
pub fn has_non_placeholder_public_item(source: &str) -> (r: bool)
    ensures
        r == exists|i: int| 0 <= i < text_lines(source@).len() && public_item_line(#[trigger] text_lines(source@)[i]),
{
    let lines = lines_of(source);
    let kw_enum = chars_of("pub enum");
    let kw_fn = chars_of("pub fn");
    let kw_trait = chars_of("pub trait");
    let kw_type = chars_of("pub type");
    let kw_const = chars_of("pub const");
    let kw_static = chars_of("pub static");
    let kw_struct = chars_of("pub struct");
    let marker = chars_of("Placeholder");
    let n = lines.len();
    for i in 0..n
        invariant
            n == lines@.len(),
            views(lines@) == text_lines(source@),
            kw_enum@ == "pub enum"@,
            kw_fn@ == "pub fn"@,
            kw_trait@ == "pub trait"@,
            kw_type@ == "pub type"@,
            kw_const@ == "pub const"@,
            kw_static@ == "pub static"@,
            kw_struct@ == "pub struct"@,
            marker@ == "Placeholder"@,
            forall|q: int| 0 <= q < i ==> !public_item_line(#[trigger] text_lines(source@)[q]),
    {
        assert(views(lines@)[i as int] == lines@[i as int]@);
        let t = trim_start_chars(&lines[i]);
        if starts_keyword_chars(&t, &kw_enum) || starts_keyword_chars(&t, &kw_fn)
            || starts_keyword_chars(&t, &kw_trait) || starts_keyword_chars(&t, &kw_type)
            || starts_keyword_chars(&t, &kw_const) || starts_keyword_chars(&t, &kw_static)
            || (starts_keyword_chars(&t, &kw_struct) && !contains_chars(&t, &marker)) {
            return true;
        }
    }
    false
}

/// The trimmed line opens a fenced code block or closes one.
pub open spec fn fence_line(l: Seq<char>) -> bool {
    starts_with(trim(l), "```"@)
}

/// How many fence lines are among `ls`.
pub open spec fn fences(ls: Seq<Seq<char>>) -> nat
    decreases ls.len(),
{
    if ls.len() == 0 {
        0
    } else {
        fences(ls.drop_last()) + if fence_line(ls.last()) {
            1nat
        } else {
            0nat
        }
    }
}

/// The line at `i` is `heading`, outside any fenced code block.
pub open spec fn heading_at(ls: Seq<Seq<char>>, heading: Seq<char>, i: int) -> bool {
    0 <= i < ls.len() && !fence_line(ls[i]) && fences(ls.take(i)) % 2 == 0 && trim(ls[i]) == heading
}

/// Return whether some line of `source`, trimmed, is `heading`, outside
/// fenced code blocks.
pub fn markdown_has_heading_outside_code_block(source: &str, heading: &str) -> (r: bool)
    ensures
        r == exists|i: int| #[trigger] heading_at(text_lines(source@), heading@, i),
{
    let lines = lines_of(source);
    let fence = chars_of("```");
    let h = chars_of(heading);
    let ghost ls = text_lines(source@);
    let mut in_block = false;
    let n = lines.len();
    for i in 0..n
        invariant
            n == lines@.len(),
            views(lines@) == ls,
            ls == text_lines(source@),
            fence@ == "```"@,
            h@ == heading@,
            in_block == (fences(ls.take(i as int)) % 2 == 1),
            forall|q: int| 0 <= q < i ==> !#[trigger] heading_at(ls, heading@, q),
    {
        assert(views(lines@)[i as int] == lines@[i as int]@);
        assert(ls.take(i + 1).drop_last() =~= ls.take(i as int));
        assert(ls.take(i + 1).last() == ls[i as int]);
        let t = trim_chars(&lines[i]);
        if starts_with_chars(&t, &fence) {
            in_block = !in_block;
        } else {
            if !in_block && t.len() == h.len() && starts_with_chars(&t, &h) {
                assert(t@ =~= t@.take(h@.len() as int));
                assert(heading_at(ls, heading@, i as int));
                return true;
            }
            proof {
                if heading_at(ls, heading@, i as int) {
                    assert(t@ == h@);
                    assert(t@.take(h@.len() as int) =~= t@);
                }
            }
        }
    }
    false
}

/// A trimmed line is `toolchain:` then, after trimming, `expected`.
pub open spec fn pins_toolchain(l: Seq<char>, expected: Seq<char>) -> bool {
    let t = trim(l);
    starts_with(t, "toolchain:"@) && trim(t.skip(10)) == expected
}

/// Return true when any workflow line pins `toolchain:` to `expected_channel`.
/// Presence is enough; conflicting lines elsewhere are not looked for.
pub fn workflow_installs_toolchain(workflow_source: &str, expected_channel: &str) -> (r: bool)
    ensures
        r == exists|i: int| 0 <= i < text_lines(workflow_source@).len() && pins_toolchain(
            #[trigger] text_lines(workflow_source@)[i],
            expected_channel@,
        ),
{
    let lines = lines_of(workflow_source);
    let key = chars_of("toolchain:");
    let e = chars_of(expected_channel);
    proof {
        reveal_strlit("toolchain:");
    }
    let n = lines.len();
    for i in 0..n
        invariant
            n == lines@.len(),
            views(lines@) == text_lines(workflow_source@),
            key@ == "toolchain:"@,
            key@.len() == 10,
            e@ == expected_channel@,
            forall|q: int| 0 <= q < i ==> !pins_toolchain(#[trigger] text_lines(workflow_source@)[q], expected_channel@),
    {
        assert(views(lines@)[i as int] == lines@[i as int]@);
        let t = trim_chars(&lines[i]);
        if starts_with_chars(&t, &key) {
            let mut rest: Vec<char> = Vec::new();
            let m = t.len();
            let mut k: usize = 10;
            while k < m
                invariant
                    m == t@.len(),
                    10 <= k <= m,
                    rest@ == t@.subrange(10, k as int),
                decreases m - k,
            {
                rest.push(t[k]);
                assert(rest@ =~= t@.subrange(10, k + 1));
                k = k + 1;
            }
            assert(rest@ =~= t@.skip(10));
            let v = trim_chars(&rest);
            if v.len() == e.len() && starts_with_chars(&v, &e) {
                assert(v@ =~= v@.take(e@.len() as int));
                return true;
            }
            proof {
                if v@ == e@ {
                    assert(v@.take(e@.len() as int) =~= v@);
                }
            }
        }
    }
    false
}

/// A character that may belong to a crate name: ASCII letter, digit, `-`, or `_`.
pub open spec fn crate_name_char(c: Option<char>) -> bool {
    match c {
        Some(c) => ('a' <= c <= 'z') || ('A' <= c <= 'Z') || ('0' <= c <= '9') || c == '-' || c == '_',
        None => false,
    }
}

/// Return whether a character may belong to a crate name.
pub fn is_crate_name_character(character: Option<char>) -> (r: bool)
    ensures
        r == crate_name_char(character),
{
    match character {
        Some(c) => ('a' <= c && c <= 'z') || ('A' <= c && c <= 'Z') || ('0' <= c && c <= '9') || c == '-'
            || c == '_',
        None => false,
    }
}

/// The first position at or after `from` where `t` occurs in `s`.
pub open spec fn next_occurrence(s: Seq<char>, t: Seq<char>, from: int) -> Option<int>
    decreases s.len() + 1 - from,
{
    if from < 0 || from > s.len() {
        None
    } else if occurs_at(s, t, from) {
        Some(from)
    } else {
        next_occurrence(s, t, from + 1)
    }
}

/// The occurrence of `t` at `i` stands alone: no crate-name character
/// touches it on either side.
pub open spec fn bounded_at(s: Seq<char>, t: Seq<char>, i: int) -> bool {
    let before = if i > 0 { Some(s[i - 1]) } else { None };
    let after = if i + t.len() < s.len() { Some(s[i + t.len()]) } else { None };
    !crate_name_char(before) && !crate_name_char(after)
}

/// Some occurrence of `t` in `s`, taken left to right without overlap from
/// `from`, stands alone.
pub open spec fn bounded_from(s: Seq<char>, t: Seq<char>, from: int) -> bool
    decreases s.len() + 1 - from,
{
    let step: int = if t.len() == 0 { 1 } else { t.len() as int };
    if from < 0 || from > s.len() {
        false
    } else {
        match next_occurrence(s, t, from) {
            None => false,
            Some(i) => if from <= i <= s.len() {
                bounded_at(s, t, i) || (i + step <= s.len() && bounded_from(s, t, i + step))
            } else {
                false
            },
        }
    }
}

/// The next occurrence lies at or after where the search starts.
proof fn lemma_next_occurrence_after(s: Seq<char>, t: Seq<char>, from: int)
    requires
        0 <= from,
    ensures
        match next_occurrence(s, t, from) {
            Some(i) => from <= i <= s.len() && occurs_at(s, t, i) && forall|q: int| from <= q < i ==> !#[trigger] occurs_at(s, t, q),
            None => forall|q: int| from <= q ==> !#[trigger] occurs_at(s, t, q),
        },
    decreases s.len() + 1 - from,
{
    if 0 <= from <= s.len() && !occurs_at(s, t, from) {
        lemma_next_occurrence_after(s, t, from + 1);
    }
}

/// Find the next occurrence of `t` in `s` at or after `from`.
fn find_from(s: &Vec<char>, t: &Vec<char>, from: usize) -> (r: Option<usize>)
    ensures
        match r {
            Some(i) => next_occurrence(s@, t@, from as int) == Some(i as int),
            None => next_occurrence(s@, t@, from as int) is None,
        },
{
    let n = s.len();
    if from > n {
        return None;
    }
    let mut i = from;
    while i < n
        invariant
            n == s@.len(),
            from <= i <= n,
            next_occurrence(s@, t@, from as int) == next_occurrence(s@, t@, i as int),
        decreases n - i,
    {
        if occurs_here(s, t, i) {
            return Some(i);
        }
        i = i + 1;
    }
    if occurs_here(s, t, n) {
        Some(n)
    } else {
        assert(next_occurrence(s@, t@, n + 1) is None);
        None
    }
}

/// Return whether `crate_name` occurs in `source` on its own, not as part of
/// a longer crate name; occurrences are taken left to right without overlap.
pub fn contains_crate_name(source: &str, crate_name: &str) -> (r: bool)
    ensures
        r == bounded_from(source@, crate_name@, 0),
{
    let s = chars_of(source);
    let t = chars_of(crate_name);
    let n = s.len();
    let step: usize = if t.len() == 0 { 1 } else { t.len() };
    let mut from: usize = 0;
    while from <= n
        invariant
            n == s@.len(),
            s@ == source@,
            t@ == crate_name@,
            step == (if t@.len() == 0 { 1 } else { t@.len() }),
            bounded_from(s@, t@, 0) == bounded_from(s@, t@, from as int),
        decreases n + 1 - from,
    {
        proof {
            lemma_next_occurrence_after(s@, t@, from as int);
        }
        match find_from(&s, &t, from) {
            None => {
                return false;
            },
            Some(i) => {
                let before = if i > 0 { Some(s[i - 1]) } else { None };
                let after = if i + t.len() < n { Some(s[i + t.len()]) } else { None };
                if !is_crate_name_character(before) && !is_crate_name_character(after) {
                    return true;
                }
                if step > n - i {
                    return false;
                }
                from = i + step;
            },
        }
    }
    false
}

} // verus!
