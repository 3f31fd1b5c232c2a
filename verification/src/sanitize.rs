//! Blanking of Rust comments and string and character literals, line by
//! line, so that source checks only see code.
//!
//! The scan is a small lexer. Text outside comments and literals is kept;
//! block comments, string literals, raw string literals, and character
//! literals become spaces; line comments are dropped. Line breaks end lines,
//! except where a literal hides them.

use vstd::prelude::*;
use crate::order::views;
use crate::text::{chars_of, push_char};

verus! {

/// Where the scan stands.
#[derive(Debug, Clone, Copy, PartialEq, Eq, Structural)]
pub enum LexMode {
    /// Ordinary code.
    Code,
    /// Inside a `//` comment, up to the line break.
    LineComment,
    /// Inside a `/* */` comment.
    BlockComment,
    /// Inside a `"` string literal.
    Str,
    /// Inside a raw string literal closed by a quote and this many `#`.
    RawStr(usize),
    /// Just after a `'`.
    Quote,
    /// Inside a lifetime or character after a `'`, having read this many
    /// identifier characters.
    Ident(usize),
    /// Just after the backslash of an escaped character literal.
    Escape,
    /// After the escaped character of a character literal.
    EscapeEnd,
    /// Inside a character literal that runs to the next `'`.
    QuoteBody,
}

/// ASCII letter or `_`.
pub open spec fn ident_start(c: char) -> bool {
    ('a' <= c <= 'z') || ('A' <= c <= 'Z') || c == '_'
}

/// ASCII letter, digit, or `_`.
pub open spec fn ident_char(c: char) -> bool {
    ident_start(c) || ('0' <= c <= '9')
}

/// Number of `#` in a row starting at `i`.
pub open spec fn hash_run(s: Seq<char>, i: int) -> nat
    decreases s.len() - i,
{
    if 0 <= i < s.len() && s[i] == '#' {
        1 + hash_run(s, i + 1)
    } else {
        0
    }
}

/// A run of `#` does not reach past the end.
pub proof fn lemma_hash_run_bound(s: Seq<char>, i: int)
    requires
        0 <= i <= s.len(),
    ensures
        hash_run(s, i) <= s.len() - i,
    decreases s.len() - i,
{
    if i < s.len() && s[i] == '#' {
        lemma_hash_run_bound(s, i + 1);
    }
}

/// The number of `#` of a raw string literal opening at `i`: an `r`, then
/// some `#`, then a quote.
pub open spec fn raw_hashes(s: Seq<char>, i: int) -> Option<nat> {
    if 0 <= i < s.len() && s[i] == 'r' && i + 1 + hash_run(s, i + 1) < s.len() && s[i + 1
        + hash_run(s, i + 1)] == '"' {
        Some(hash_run(s, i + 1))
    } else {
        None
    }
}

/// A quote followed by `h` hashes stands at `i`.
pub open spec fn closes_raw(s: Seq<char>, i: int, h: nat) -> bool {
    0 <= i < s.len() && s[i] == '"' && hash_run(s, i + 1) >= h
}

/// `n` spaces.
pub open spec fn spaces(n: nat) -> Seq<char> {
    Seq::new(n, |k: int| ' ')
}

/// `s` has `a` then `b` at `i`.
pub open spec fn pair_at(s: Seq<char>, i: int, a: char, b: char) -> bool {
    0 <= i && i + 1 < s.len() && s[i] == a && s[i + 1] == b
}

/// One step of the scan at `i` in mode `m`: what it writes, the next mode,
/// and the next position. Line breaks are written as `'\n'`.
pub open spec fn step(s: Seq<char>, m: LexMode, i: int) -> (Seq<char>, LexMode, int) {
    let c = s[i];
    match m {
        LexMode::Code => {
            if c == '\n' {
                (seq!['\n'], LexMode::Code, i + 1)
            } else if pair_at(s, i, '/', '/') {
                (Seq::empty(), LexMode::LineComment, i + 2)
            } else if pair_at(s, i, '/', '*') {
                (spaces(2), LexMode::BlockComment, i + 2)
            } else if raw_hashes(s, i) is Some {
                let h = raw_hashes(s, i)->0;
                (spaces(h + 2), LexMode::RawStr(h as usize), i + h + 2)
            } else if c == '"' {
                (spaces(1), LexMode::Str, i + 1)
            } else if c == '\'' {
                (spaces(1), LexMode::Quote, i + 1)
            } else {
                (seq![c], LexMode::Code, i + 1)
            }
        },
        LexMode::LineComment => {
            if c == '\n' {
                (Seq::empty(), LexMode::Code, i)
            } else {
                (Seq::empty(), LexMode::LineComment, i + 1)
            }
        },
        LexMode::BlockComment => {
            if c == '\n' {
                (seq!['\n'], LexMode::BlockComment, i + 1)
            } else if pair_at(s, i, '*', '/') {
                (spaces(2), LexMode::Code, i + 2)
            } else {
                (spaces(1), LexMode::BlockComment, i + 1)
            }
        },
        LexMode::Str => {
            if c == '\n' {
                (seq!['\n'], LexMode::Code, i + 1)
            } else if c == '\\' {
                (spaces(1), LexMode::Str, if i + 2 <= s.len() { i + 2 } else { s.len() as int })
            } else if c == '"' {
                (spaces(1), LexMode::Code, i + 1)
            } else {
                (spaces(1), LexMode::Str, i + 1)
            }
        },
        LexMode::RawStr(h) => {
            if c == '\n' {
                (seq!['\n'], LexMode::RawStr(h), i + 1)
            } else if closes_raw(s, i, h as nat) {
                (spaces(h as nat + 1), LexMode::Code, i + 1 + h)
            } else {
                (spaces(1), LexMode::RawStr(h), i + 1)
            }
        },
        LexMode::Quote => {
            if ident_start(c) {
                (Seq::empty(), LexMode::Ident(0), i)
            } else if c == '\\' {
                (spaces(1), LexMode::Escape, i + 1)
            } else {
                (Seq::empty(), LexMode::QuoteBody, i)
            }
        },
        LexMode::Ident(n) => {
            if ident_char(c) {
                (spaces(1), LexMode::Ident(if n < 2 { (n + 1) as usize } else { 2 }), i + 1)
            } else if n == 1 && c == '\'' {
                (spaces(1), LexMode::Code, i + 1)
            } else {
                (Seq::empty(), LexMode::Code, i)
            }
        },
        LexMode::Escape => (spaces(1), LexMode::EscapeEnd, i + 1),
        LexMode::EscapeEnd => {
            if c == '\'' {
                (spaces(1), LexMode::Code, i + 1)
            } else {
                (Seq::empty(), LexMode::Code, i)
            }
        },
        LexMode::QuoteBody => {
            if c == '\'' {
                (spaces(1), LexMode::Code, i + 1)
            } else {
                (spaces(1), LexMode::QuoteBody, i + 1)
            }
        },
    }
}

/// Modes a step may leave without reading a character go down this rank.
pub open spec fn rank(m: LexMode) -> int {
    match m {
        LexMode::Code => 0,
        LexMode::Ident(_) => 1,
        LexMode::EscapeEnd => 1,
        LexMode::LineComment => 1,
        LexMode::QuoteBody => 1,
        LexMode::Quote => 2,
        _ => 1,
    }
}

/// A step reads at least one character, or keeps its place and goes down in rank.
pub proof fn lemma_step_progress(s: Seq<char>, m: LexMode, i: int)
    requires
        0 <= i < s.len(),
    ensures
        step(s, m, i).2 <= s.len(),
        step(s, m, i).2 > i || (step(s, m, i).2 == i && rank(step(s, m, i).1) < rank(m)),
{
    lemma_hash_run_bound(s, i + 1);
}

/// The text the scan writes from position `i` in mode `m` to the end.
pub open spec fn scan(s: Seq<char>, m: LexMode, i: int) -> Seq<char>
    decreases 3 * (s.len() - i) + rank(m),
{
    if i < 0 || i >= s.len() {
        Seq::empty()
    } else {
        let (out, next, j) = step(s, m, i);
        if j <= s.len() && (j > i || (j == i && rank(next) < rank(m))) {
            out + scan(s, next, j)
        } else {
            out
        }
    }
}

/// The blanked text of a whole source.
pub open spec fn blanked(s: Seq<char>) -> Seq<char> {
    scan(s, LexMode::Code, 0)
}

/// The complete lines of `t` and the unfinished last line.
pub open spec fn split_at_breaks(t: Seq<char>) -> (Seq<Seq<char>>, Seq<char>)
    decreases t.len(),
{
    if t.len() == 0 {
        (Seq::empty(), Seq::empty())
    } else {
        let (lines, cur) = split_at_breaks(t.drop_last());
        if t.last() == '\n' {
            (lines.push(cur), Seq::empty())
        } else {
            (lines, cur.push(t.last()))
        }
    }
}

/// The blanked lines of a source: the lines of its blanked text, the last one
/// kept when it is not empty or when the source ends with a line break.
pub open spec fn blanked_lines(s: Seq<char>) -> Seq<Seq<char>> {
    let (lines, cur) = split_at_breaks(blanked(s));
    if cur.len() > 0 || (s.len() > 0 && s.last() == '\n') {
        lines.push(cur)
    } else {
        lines
    }
}

/// No comment or literal can start in `s`: it holds no `/`, `"` or `'`.
pub open spec fn plain_text(s: Seq<char>) -> bool {
    forall|k: int| 0 <= k < s.len() ==> #[trigger] s[k] != '/' && s[k] != '"' && s[k] != '\''
}

/// The pieces of `s` between its line breaks, the last one included even
/// when empty, as splitting at every `'\n'` gives them.
pub open spec fn split_pieces(s: Seq<char>) -> Seq<Seq<char>> {
    split_at_breaks(s).0.push(split_at_breaks(s).1)
}

/// The scan keeps plain text as it is.
proof fn lemma_scan_plain(s: Seq<char>, i: int)
    requires
        0 <= i <= s.len(),
        plain_text(s),
    ensures
        scan(s, LexMode::Code, i) == s.subrange(i, s.len() as int),
    decreases s.len() - i,
{
    if i < s.len() {
        lemma_scan_plain(s, i + 1);
        assert(s[i] != '/' && s[i] != '"' && s[i] != '\'');
        assert(raw_hashes(s, i) is None) by {
            let q = i + 1 + hash_run(s, i + 1);
            if 0 <= q < s.len() {
                assert(s[q] != '"');
            }
        }
        assert(step(s, LexMode::Code, i) == (seq![s[i]], LexMode::Code, i + 1));
        assert(s.subrange(i, s.len() as int) =~= seq![s[i]] + s.subrange(i + 1, s.len() as int));
    } else {
        assert(s.subrange(i, s.len() as int) =~= Seq::<char>::empty());
    }
}

/// Text in which no comment or literal can start comes back unchanged, line
/// by line: its lines are the pieces between its line breaks, a final empty
/// piece included when it ends with a line break.
pub proof fn lemma_plain_text_kept(s: Seq<char>)
    requires
        s.len() > 0,
        plain_text(s),
    ensures
        blanked(s) == s,
        blanked_lines(s) == split_pieces(s),
{
    lemma_scan_plain(s, 0);
    assert(s.subrange(0, s.len() as int) =~= s);
    lemma_split_last_piece(s);
}

/// The unfinished last line of a text is empty only when the text is empty
/// or ends with a line break.
proof fn lemma_split_last_piece(t: Seq<char>)
    ensures
        split_at_breaks(t).1.len() == 0 ==> t.len() == 0 || t.last() == '\n',
    decreases t.len(),
{
    if t.len() > 0 {
        lemma_split_last_piece(t.drop_last());
    }
}

/// Count the `#` in a row starting at `i`.
fn count_hashes(s: &Vec<char>, i: usize) -> (r: usize)
    ensures
        r == hash_run(s@, i as int),
        i + r <= s@.len() || r == 0,
{
    let mut k: usize = i;
    while k < s.len() && s[k] == '#'
        invariant
            i <= k,
            k <= s@.len() || k == i,
            hash_run(s@, i as int) == (k - i) + hash_run(s@, k as int),
        decreases s@.len() - k,
    {
        k = k + 1;
    }
    k - i
}

/// Return the number of `#` of a raw string literal opening at `start`.
pub fn raw_string_hashes(chars: &Vec<char>, start: usize) -> (r: Option<usize>)
    ensures
        match r {
            None => raw_hashes(chars@, start as int) is None,
            Some(h) => raw_hashes(chars@, start as int) == Some(h as nat),
        },
{
    if start >= chars.len() || chars[start] != 'r' {
        return None;
    }
    let h = count_hashes(chars, start + 1);
    let q = start + 1 + h;
    if q < chars.len() && chars[q] == '"' {
        Some(h)
    } else {
        None
    }
}

/// Whether `a` then `b` stand at `i`.
fn pair_here(s: &Vec<char>, i: usize, a: char, b: char) -> (r: bool)
    ensures
        r == pair_at(s@, i as int, a, b),
{
    i < s.len() && i + 1 < s.len() && s[i] == a && s[i + 1] == b
}

/// Whether a quote and `h` hashes stand at `i`.
fn closes_raw_here(s: &Vec<char>, i: usize, h: usize) -> (r: bool)
    ensures
        r == closes_raw(s@, i as int, h as nat),
{
    if i >= s.len() || s[i] != '"' {
        return false;
    }
    count_hashes(s, i + 1) >= h
}

/// Whether `c` may start an identifier.
fn is_ident_start(c: char) -> (r: bool)
    ensures
        r == ident_start(c),
{
    ('a' <= c && c <= 'z') || ('A' <= c && c <= 'Z') || c == '_'
}

/// Whether `c` may continue an identifier.
fn is_ident_char(c: char) -> (r: bool)
    ensures
        r == ident_char(c),
{
    is_ident_start(c) || ('0' <= c && c <= '9')
}

/// Take one step of the scan, writing into `out`.
fn step_exec(s: &Vec<char>, m: LexMode, i: usize, out: &mut Vec<char>) -> (r: (LexMode, usize))
    requires
        i < s@.len(),
    ensures
        final(out)@ == old(out)@ + step(s@, m, i as int).0,
        r.0 == step(s@, m, i as int).1,
        r.1 == step(s@, m, i as int).2,
{
    let n = s.len();
    let c = s[i];
    let ghost st = step(s@, m, i as int);
    match m {
        LexMode::Code => {
            if c == '\n' {
                out.push('\n');
                assert(seq!['\n'] =~= st.0);
                (LexMode::Code, i + 1)
            } else if pair_here(s, i, '/', '/') {
                assert(out@ =~= old(out)@ + st.0);
                (LexMode::LineComment, i + 2)
            } else if pair_here(s, i, '/', '*') {
                out.push(' ');
                out.push(' ');
                assert(out@ =~= old(out)@ + st.0);
                (LexMode::BlockComment, i + 2)
            } else {
                match raw_string_hashes(s, i) {
                    Some(h) => {
                        assert(i + h + 2 <= n);
                        let total = h + 2;
                        let mut k: usize = 0;
                        while k < total
                            invariant
                                k <= total,
                                total == h + 2,
                                i + h + 2 <= s@.len(),
                                out@ == old(out)@ + spaces(k as nat),
                            decreases h + 2 - k,
                        {
                            out.push(' ');
                            k = k + 1;
                            assert(out@ =~= old(out)@ + spaces(k as nat));
                        }
                        (LexMode::RawStr(h), i + h + 2)
                    },
                    None => {
                        if c == '"' {
                            out.push(' ');
                            assert(out@ =~= old(out)@ + st.0);
                            (LexMode::Str, i + 1)
                        } else if c == '\'' {
                            out.push(' ');
                            assert(out@ =~= old(out)@ + st.0);
                            (LexMode::Quote, i + 1)
                        } else {
                            out.push(c);
                            assert(out@ =~= old(out)@ + st.0);
                            (LexMode::Code, i + 1)
                        }
                    },
                }
            }
        },
        LexMode::LineComment => {
            assert(out@ =~= old(out)@ + st.0);
            if c == '\n' {
                (LexMode::Code, i)
            } else {
                (LexMode::LineComment, i + 1)
            }
        },
        LexMode::BlockComment => {
            if c == '\n' {
                out.push('\n');
                assert(out@ =~= old(out)@ + st.0);
                (LexMode::BlockComment, i + 1)
            } else if pair_here(s, i, '*', '/') {
                out.push(' ');
                out.push(' ');
                assert(out@ =~= old(out)@ + st.0);
                (LexMode::Code, i + 2)
            } else {
                out.push(' ');
                assert(out@ =~= old(out)@ + st.0);
                (LexMode::BlockComment, i + 1)
            }
        },
        LexMode::Str => {
            if c == '\n' {
                out.push('\n');
                assert(out@ =~= old(out)@ + st.0);
                (LexMode::Code, i + 1)
            } else {
                out.push(' ');
                assert(out@ =~= old(out)@ + st.0);
                if c == '\\' {
                    (LexMode::Str, if i + 1 < n { i + 2 } else { n })
                } else if c == '"' {
                    (LexMode::Code, i + 1)
                } else {
                    (LexMode::Str, i + 1)
                }
            }
        },
        LexMode::RawStr(h) => {
            if c == '\n' {
                out.push('\n');
                assert(out@ =~= old(out)@ + st.0);
                (LexMode::RawStr(h), i + 1)
            } else if closes_raw_here(s, i, h) {
                proof {
                    lemma_hash_run_bound(s@, i + 1);
                }
                assert(i + h + 1 <= n);
                let total = h + 1;
                let mut k: usize = 0;
                while k < total
                    invariant
                        k <= total,
                        total == h + 1,
                        i + h < s@.len(),
                        out@ == old(out)@ + spaces(k as nat),
                    decreases h + 1 - k,
                {
                    out.push(' ');
                    k = k + 1;
                    assert(out@ =~= old(out)@ + spaces(k as nat));
                }
                (LexMode::Code, i + 1 + h)
            } else {
                out.push(' ');
                assert(out@ =~= old(out)@ + st.0);
                (LexMode::RawStr(h), i + 1)
            }
        },
        LexMode::Quote => {
            if is_ident_start(c) {
                assert(out@ =~= old(out)@ + st.0);
                (LexMode::Ident(0), i)
            } else if c == '\\' {
                out.push(' ');
                assert(out@ =~= old(out)@ + st.0);
                (LexMode::Escape, i + 1)
            } else {
                assert(out@ =~= old(out)@ + st.0);
                (LexMode::QuoteBody, i)
            }
        },
        LexMode::Ident(n) => {
            if is_ident_char(c) {
                out.push(' ');
                assert(out@ =~= old(out)@ + st.0);
                let next = if n < 2 { n + 1 } else { 2 };
                (LexMode::Ident(next), i + 1)
            } else if n == 1 && c == '\'' {
                out.push(' ');
                assert(out@ =~= old(out)@ + st.0);
                (LexMode::Code, i + 1)
            } else {
                assert(out@ =~= old(out)@ + st.0);
                (LexMode::Code, i)
            }
        },
        LexMode::Escape => {
            out.push(' ');
            assert(out@ =~= old(out)@ + st.0);
            (LexMode::EscapeEnd, i + 1)
        },
        LexMode::EscapeEnd => {
            if c == '\'' {
                out.push(' ');
                assert(out@ =~= old(out)@ + st.0);
                (LexMode::Code, i + 1)
            } else {
                assert(out@ =~= old(out)@ + st.0);
                (LexMode::Code, i)
            }
        },
        LexMode::QuoteBody => {
            out.push(' ');
            assert(out@ =~= old(out)@ + st.0);
            if c == '\'' {
                (LexMode::Code, i + 1)
            } else {
                (LexMode::QuoteBody, i + 1)
            }
        },
    }
}

/// Blank the comments and literals of Rust source, line by line.
pub fn strip_rust_comments_and_strings(source: &str) -> (r: Vec<String>)
    ensures
        views(r@) == blanked_lines(source@),
{
    let s = chars_of(source);
    let mut text: Vec<char> = Vec::new();
    let mut m = LexMode::Code;
    let mut i: usize = 0;
    let n = s.len();
    while i < n
        invariant
            n == s@.len(),
            s@ == source@,
            text@ + scan(s@, m, i as int) == blanked(s@),
        decreases 3 * (n - i) + rank(m),
    {
        proof {
            lemma_step_progress(s@, m, i as int);
        }
        let ghost before = text@;
        let ghost old_m = m;
        let ghost old_i = i as int;
        let (next, j) = step_exec(&s, m, i, &mut text);
        proof {
            assert(scan(s@, old_m, old_i) == step(s@, old_m, old_i).0 + scan(s@, next, j as int));
            assert(text@ + scan(s@, next, j as int) =~= before + scan(s@, old_m, old_i));
        }
        m = next;
        i = j;
    }
    assert(scan(s@, m, i as int) == Seq::<char>::empty());
    assert(text@ =~= blanked(s@));
    lines_from_breaks(&text, n > 0 && s[n - 1] == '\n')
}

/// Cut text at its breaks into lines, keeping an empty last line when asked.
fn lines_from_breaks(t: &Vec<char>, keep_last: bool) -> (r: Vec<String>)
    ensures
        views(r@) == ({
            let (lines, cur) = split_at_breaks(t@);
            if cur.len() > 0 || keep_last {
                lines.push(cur)
            } else {
                lines
            }
        }),
{
    let mut lines: Vec<String> = Vec::new();
    let mut cur = String::new();
    let n = t.len();
    for i in 0..n
        invariant
            n == t@.len(),
            (views(lines@), cur@) == split_at_breaks(t@.take(i as int)),
    {
        assert(t@.take(i + 1).drop_last() =~= t@.take(i as int));
        if t[i] == '\n' {
            let ghost before = lines@;
            let done = cur;
            lines.push(done);
            cur = String::new();
            assert(views(lines@) =~= views(before).push(done@));
        } else {
            push_char(&mut cur, t[i]);
        }
    }
    assert(t@.take(n as int) =~= t@);
    if cur.unicode_len() > 0 || keep_last {
        let ghost before = lines@;
        let c = cur;
        lines.push(c);
        assert(views(lines@) =~= views(before).push(c@));
    }
    lines
}

} // verus!
