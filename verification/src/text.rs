//! Character classes and small string utilities shared by the validators.

use vstd::prelude::*;
use vstd::string::StrSliceExecFns;
use vstd::string::StringExecFns;

verus! {

/// Lowercase ASCII letter.
pub open spec fn is_lower(c: char) -> bool {
    'a' <= c && c <= 'z'
}

/// Uppercase ASCII letter.
pub open spec fn is_upper(c: char) -> bool {
    'A' <= c && c <= 'Z'
}

/// ASCII decimal digit.
pub open spec fn is_digit(c: char) -> bool {
    '0' <= c && c <= '9'
}

/// ASCII letter or digit.
pub open spec fn is_alnum(c: char) -> bool {
    is_lower(c) || is_upper(c) || is_digit(c)
}

/// Visible ASCII character (`!` through `~`).
pub open spec fn is_graphic(c: char) -> bool {
    '!' <= c && c <= '~'
}

/// Named character sets used by the Kply validators.
#[derive(Clone, Copy, Debug, PartialEq, Eq)]
pub enum CharClass {
    /// Lowercase ASCII letters and digits.
    LowerAlnum,
    /// Lowercase ASCII letters, digits, and `-`.
    Token,
    /// ASCII letters and digits.
    Alnum,
    /// ASCII letters, digits, `.`, and `-`.
    Kind,
    /// ASCII letters, digits, `.`, `+`, `-`, and `_`.
    Quantity,
    /// HTTP token characters.
    HeaderName,
    /// Visible ASCII characters.
    Graphic,
    /// Lowercase ASCII letters, digits, `-`, and `.`.
    Host,
    /// ASCII letters, digits, `.`, `_`, `-`, `/`, `:`, and `@`.
    Image,
    /// Lowercase ASCII letters, digits, `.`, `_`, and `-`.
    ImageRepository,
    /// Lowercase ASCII letters, digits, `.`, `-`, and `:`.
    ImageRegistry,
    /// ASCII decimal digits.
    Digit,
    /// ASCII letters, digits, `.`, `_`, `-`, and `/`.
    MetadataKey,
    /// ASCII letters, digits, `.`, `_`, and `-`.
    LabelValue,
}

/// Whether `c` belongs to the character class `k`.
pub open spec fn class_has(k: CharClass, c: char) -> bool {
    match k {
        CharClass::LowerAlnum => is_lower(c) || is_digit(c),
        CharClass::Token => is_lower(c) || is_digit(c) || c == '-',
        CharClass::Alnum => is_alnum(c),
        CharClass::Kind => is_alnum(c) || c == '.' || c == '-',
        CharClass::Quantity => is_alnum(c) || c == '.' || c == '+' || c == '-' || c == '_',
        CharClass::HeaderName => is_alnum(c) || c == '!' || c == '#' || c == '$' || c == '%'
            || c == '&' || c == '\'' || c == '*' || c == '+' || c == '-' || c == '.' || c == '^'
            || c == '_' || c == '`' || c == '|' || c == '~',
        CharClass::Graphic => is_graphic(c),
        CharClass::Host => is_lower(c) || is_digit(c) || c == '-' || c == '.',
        CharClass::Image => is_alnum(c) || c == '.' || c == '_' || c == '-' || c == '/' || c
            == ':' || c == '@',
        CharClass::ImageRepository => is_lower(c) || is_digit(c) || c == '.' || c == '_' || c
            == '-',
        CharClass::ImageRegistry => is_lower(c) || is_digit(c) || c == '.' || c == '-' || c
            == ':',
        CharClass::Digit => is_digit(c),
        CharClass::MetadataKey => is_alnum(c) || c == '.' || c == '_' || c == '-' || c == '/',
        CharClass::LabelValue => is_alnum(c) || c == '.' || c == '_' || c == '-',
    }
}

/// An HTTP token character: visible ASCII other than the delimiters
/// `"(),/:;<=>?@[\]{}`.
pub open spec fn http_token_char(c: char) -> bool {
    &&& '!' <= c && c <= '~'
    &&& c != '"' && c != '(' && c != ')' && c != ',' && c != '/' && c != ':' && c != ';'
    &&& c != '<' && c != '=' && c != '>' && c != '?' && c != '@' && c != '['
    &&& c != '\\' && c != ']' && c != '{' && c != '}'
}

/// Header names are HTTP tokens: a character may stand in a header name
/// exactly when it is a token character, so letters of either case, digits
/// and the token punctuation are all accepted, and delimiters, spaces and
/// non-ASCII characters are refused.
pub proof fn lemma_header_name_chars_are_tokens(c: char)
    ensures
        class_has(CharClass::HeaderName, c) <==> http_token_char(c),
        is_upper(c) || is_lower(c) || is_digit(c) ==> class_has(CharClass::HeaderName, c),
{
}

/// Decide whether `c` belongs to the character class `k`.
pub fn class_contains(k: CharClass, c: char) -> (r: bool)
    ensures
        r == class_has(k, c),
{
    let lower = 'a' <= c && c <= 'z';
    let upper = 'A' <= c && c <= 'Z';
    let digit = '0' <= c && c <= '9';
    let alnum = lower || upper || digit;
    match k {
        CharClass::LowerAlnum => lower || digit,
        CharClass::Token => lower || digit || c == '-',
        CharClass::Alnum => alnum,
        CharClass::Kind => alnum || c == '.' || c == '-',
        CharClass::Quantity => alnum || c == '.' || c == '+' || c == '-' || c == '_',
        CharClass::HeaderName => alnum || c == '!' || c == '#' || c == '$' || c == '%' || c
            == '&' || c == '\'' || c == '*' || c == '+' || c == '-' || c == '.' || c == '^' || c
            == '_' || c == '`' || c == '|' || c == '~',
        CharClass::Graphic => '!' <= c && c <= '~',
        CharClass::Host => lower || digit || c == '-' || c == '.',
        CharClass::Image => alnum || c == '.' || c == '_' || c == '-' || c == '/' || c == ':'
            || c == '@',
        CharClass::ImageRepository => lower || digit || c == '.' || c == '_' || c == '-',
        CharClass::ImageRegistry => lower || digit || c == '.' || c == '-' || c == ':',
        CharClass::Digit => digit,
        CharClass::MetadataKey => alnum || c == '.' || c == '_' || c == '-' || c == '/',
        CharClass::LabelValue => alnum || c == '.' || c == '_' || c == '-',
    }
}

/// Every character of `s` belongs to class `k`.
pub open spec fn all_in(s: Seq<char>, k: CharClass) -> bool {
    forall|i: int| 0 <= i < s.len() ==> class_has(k, #[trigger] s[i])
}

/// The first character of `s` (from the left) outside class `k`, if any.
pub open spec fn first_outside(s: Seq<char>, k: CharClass) -> Option<char>
    decreases s.len(),
{
    if s.len() == 0 {
        None
    } else if !class_has(k, s[0]) {
        Some(s[0])
    } else {
        first_outside(s.drop_first(), k)
    }
}

/// Skipping a prefix whose characters all lie in `k` does not change the first outsider.
pub proof fn lemma_first_outside_skip(s: Seq<char>, k: CharClass, i: int)
    requires
        0 <= i <= s.len(),
        forall|j: int| 0 <= j < i ==> class_has(k, #[trigger] s[j]),
    ensures
        first_outside(s, k) == first_outside(s.skip(i), k),
    decreases i,
{
    if i > 0 {
        assert(class_has(k, s[0]));
        let t = s.drop_first();
        assert forall|j: int| 0 <= j < i - 1 implies class_has(k, #[trigger] t[j]) by {
            assert(t[j] == s[j + 1]);
        }
        lemma_first_outside_skip(t, k, i - 1);
        assert(t.skip(i - 1) =~= s.skip(i));
    } else {
        assert(s.skip(0) =~= s);
    }
}

/// A sequence has no outsider exactly when every character lies in the class.
pub proof fn lemma_first_outside_none(s: Seq<char>, k: CharClass)
    ensures
        first_outside(s, k).is_none() <==> all_in(s, k),
        first_outside(s, k) matches Some(c) ==> !class_has(k, c),
    decreases s.len(),
{
    if s.len() > 0 {
        let t = s.drop_first();
        lemma_first_outside_none(t, k);
        if class_has(k, s[0]) {
            if all_in(t, k) {
                assert forall|i: int| 0 <= i < s.len() implies class_has(k, #[trigger] s[i]) by {
                    if i > 0 {
                        assert(s[i] == t[i - 1]);
                    }
                }
            }
            if all_in(s, k) {
                assert forall|i: int| 0 <= i < t.len() implies class_has(k, #[trigger] t[i]) by {
                    assert(t[i] == s[i + 1]);
                }
            }
        }
    }
}

/// Find the first character of `s` outside class `k`.
pub fn find_outside(s: &[char], k: CharClass) -> (r: Option<char>)
    ensures
        r == first_outside(s@, k),
{
    let n = s.len();
    let mut i: usize = 0;
    while i < n
        invariant
            n == s@.len(),
            0 <= i <= n,
            forall|j: int| 0 <= j < i ==> class_has(k, #[trigger] s@[j]),
        decreases n - i,
    {
        if !class_contains(k, s[i]) {
            proof {
                lemma_first_outside_skip(s@, k, i as int);
                assert(s@.skip(i as int)[0] == s@[i as int]);
            }
            return Some(s[i]);
        }
        i = i + 1;
    }
    proof {
        lemma_first_outside_skip(s@, k, n as int);
        assert(s@.skip(n as int).len() == 0);
    }
    None
}

/// Decide whether every character of `s` lies in class `k`.
pub fn all_chars_in(s: &[char], k: CharClass) -> (r: bool)
    ensures
        r == all_in(s@, k),
{
    proof {
        lemma_first_outside_none(s@, k);
    }
    find_outside(s, k).is_none()
}

/// Length in bytes of the UTF-8 encoding of `s`.
pub open spec fn utf8_len(s: Seq<char>) -> nat {
    vstd::utf8::encode_utf8(s).len()
}

/// Length in bytes of the UTF-8 encoding of one character.
pub fn char_utf8_width(c: char) -> (w: usize)
    ensures
        w == vstd::utf8::encode_scalar(c as u32).len(),
        1 <= w <= 4,
{
    proof {
        vstd::utf8::char_is_scalar(c);
    }
    let u = c as u32;
    if u <= 0x7f {
        1
    } else if u <= 0x7ff {
        2
    } else if u <= 0xffff {
        3
    } else {
        4
    }
}

/// Encoding a sequence extended by one character adds that character's width.
pub proof fn lemma_utf8_len_push(s: Seq<char>, c: char)
    ensures
        utf8_len(s.push(c)) == utf8_len(s) + vstd::utf8::encode_scalar(c as u32).len(),
    decreases s.len(),
{
    if s.len() > 0 {
        lemma_utf8_len_push(s.drop_first(), c);
        assert(s.push(c).drop_first() =~= s.drop_first().push(c));
        assert(s.push(c)[0] == s[0]);
    } else {
        assert(s.push(c).drop_first() =~= Seq::<char>::empty());
        assert(s.push(c)[0] == c);
        assert(vstd::utf8::encode_utf8(Seq::<char>::empty()) =~= Seq::<u8>::empty());
        assert(vstd::utf8::encode_utf8(s) =~= Seq::<u8>::empty());
    }
}

/// Decide whether the UTF-8 encoding of `s` is longer than `max` bytes.
pub fn utf8_len_exceeds(s: &[char], max: usize) -> (r: bool)
    ensures
        r == (utf8_len(s@) > max),
{
    let n = s.len();
    let mut total: usize = 0;
    let mut i: usize = 0;
    while i < n
        invariant
            n == s@.len(),
            0 <= i <= n,
            total == utf8_len(s@.take(i as int)),
            total <= max,
        decreases n - i,
    {
        let w = char_utf8_width(s[i]);
        proof {
            lemma_utf8_len_push(s@.take(i as int), s@[i as int]);
            assert(s@.take(i as int).push(s@[i as int]) =~= s@.take(i + 1));
        }
        if w > max - total {
            proof {
                lemma_utf8_len_prefix(s@, i + 1);
            }
            return true;
        }
        total = total + w;
        i = i + 1;
    }
    assert(s@.take(n as int) =~= s@);
    false
}

/// ASCII characters encode to one byte each.
pub proof fn lemma_ascii_utf8_len(s: Seq<char>)
    requires
        forall|i: int| 0 <= i < s.len() ==> (s[i] as u32) < 0x80,
    ensures
        utf8_len(s) == s.len(),
    decreases s.len(),
{
    if s.len() == 0 {
        assert(vstd::utf8::encode_utf8(s) =~= Seq::<u8>::empty());
    } else {
        lemma_ascii_utf8_len(s.drop_last());
        lemma_utf8_len_push(s.drop_last(), s.last());
        assert(s.drop_last().push(s.last()) =~= s);
    }
}

/// A prefix never encodes to more bytes than the whole sequence.
pub proof fn lemma_utf8_len_prefix(s: Seq<char>, i: int)
    requires
        0 <= i <= s.len(),
    ensures
        utf8_len(s.take(i)) <= utf8_len(s),
    decreases s.len() - i,
{
    if i < s.len() {
        lemma_utf8_len_prefix(s, i + 1);
        lemma_utf8_len_push(s.take(i), s[i]);
        assert(s.take(i).push(s[i]) =~= s.take(i + 1));
    } else {
        assert(s.take(i) =~= s);
    }
}

/// Whether two character sequences are equal.
pub fn chars_eq(a: &[char], b: &[char]) -> (r: bool)
    ensures
        r == (a@ == b@),
{
    if a.len() != b.len() {
        return false;
    }
    let n = a.len();
    let mut i: usize = 0;
    while i < n
        invariant
            n == a@.len(),
            n == b@.len(),
            0 <= i <= n,
            forall|j: int| 0 <= j < i ==> a@[j] == b@[j],
        decreases n - i,
    {
        if a[i] != b[i] {
            return false;
        }
        i = i + 1;
    }
    assert(a@ =~= b@);
    true
}

/// Whether `c` occurs in `s`.
pub fn chars_contain(s: &[char], c: char) -> (r: bool)
    ensures
        r == s@.contains(c),
{
    let n = s.len();
    let mut i: usize = 0;
    while i < n
        invariant
            n == s@.len(),
            0 <= i <= n,
            forall|j: int| 0 <= j < i ==> s@[j] != c,
        decreases n - i,
    {
        if s[i] == c {
            return true;
        }
        i = i + 1;
    }
    false
}

/// Copy the characters of a string slice into a vector.
pub fn chars_of(s: &str) -> (v: Vec<char>)
    ensures
        v@ == s@,
{
    let n = s.unicode_len();
    let mut v: Vec<char> = Vec::new();
    for i in 0..n
        invariant
            n == s@.len(),
            v@ == s@.take(i as int),
    {
        v.push(s.get_char(i));
        assert(v@ =~= s@.take(i + 1));
    }
    assert(s@.take(n as int) =~= s@);
    v
}

/// Whether `a` and `b` hold the same characters.
pub fn str_eq(a: &str, b: &str) -> (r: bool)
    ensures
        r == (a@ == b@),
{
    let x = chars_of(a);
    let y = chars_of(b);
    chars_eq(&x, &y)
}

/// Append one character to a string through `String::push`, which std
/// documents as appending the character to the end; vstd gives that method no
/// specification, so this contract is taken on trust.
#[verifier::external_body]
pub(crate) fn push_char(s: &mut String, c: char)
    ensures
        final(s)@ == old(s)@.push(c),
{
    s.push(c);
}

/// Build an owned string holding the characters of `s`.
pub fn string_of(s: &str) -> (r: String)
    ensures
        r@ == s@,
{
    s.to_owned()
}

/// Build an owned string from a character sequence.
pub fn string_from_chars(v: &[char]) -> (r: String)
    ensures
        r@ == v@,
{
    let mut r = String::new();
    let n = v.len();
    for i in 0..n
        invariant
            n == v@.len(),
            r@ == v@.take(i as int),
    {
        push_char(&mut r, v[i]);
        assert(r@ =~= v@.take(i + 1));
    }
    assert(v@.take(n as int) =~= v@);
    r
}

/// The decimal digit character for `d`.
pub open spec fn digit_char(d: nat) -> char {
    if d == 0 {
        '0'
    } else if d == 1 {
        '1'
    } else if d == 2 {
        '2'
    } else if d == 3 {
        '3'
    } else if d == 4 {
        '4'
    } else if d == 5 {
        '5'
    } else if d == 6 {
        '6'
    } else if d == 7 {
        '7'
    } else if d == 8 {
        '8'
    } else {
        '9'
    }
}

/// Base-10 spelling of `n` without leading zeros.
pub open spec fn decimal(n: nat) -> Seq<char>
    decreases n,
{
    if n < 10 {
        seq![digit_char(n)]
    } else {
        decimal(n / 10).push(digit_char(n % 10))
    }
}

fn exec_digit_char(d: u64) -> (c: char)
    requires
        d < 10,
    ensures
        c == digit_char(d as nat),
{
    if d == 0 {
        '0'
    } else if d == 1 {
        '1'
    } else if d == 2 {
        '2'
    } else if d == 3 {
        '3'
    } else if d == 4 {
        '4'
    } else if d == 5 {
        '5'
    } else if d == 6 {
        '6'
    } else if d == 7 {
        '7'
    } else if d == 8 {
        '8'
    } else {
        '9'
    }
}

/// Append the base-10 spelling of `n` to `s`.
pub fn push_decimal(s: &mut String, n: u64)
    ensures
        final(s)@ == old(s)@ + decimal(n as nat),
    decreases n,
{
    if n < 10 {
        push_char(s, exec_digit_char(n));
        assert(decimal(n as nat) =~= seq![digit_char(n as nat)]);
    } else {
        push_decimal(s, n / 10);
        push_char(s, exec_digit_char(n % 10));
    }
}

/// Base-10 spelling of a signed integer, with a leading `-` when negative.
pub open spec fn signed_decimal(n: int) -> Seq<char> {
    if n < 0 {
        seq!['-'] + decimal((-n) as nat)
    } else {
        decimal(n as nat)
    }
}

/// Append the base-10 spelling of a signed 32-bit integer to `s`.
pub fn push_signed_decimal(s: &mut String, n: i32)
    ensures
        final(s)@ == old(s)@ + signed_decimal(n as int),
{
    if n < 0 {
        push_char(s, '-');
        let m: i64 = -(n as i64);
        push_decimal(s, m as u64);
    } else {
        push_decimal(s, n as u64);
    }
}

/// Append a string slice to `s`.
pub fn push_str(s: &mut String, t: &str)
    ensures
        final(s)@ == old(s)@ + t@,
{
    s.append(t);
}

/// The ASCII uppercase form of a character; other characters are unchanged.
pub open spec fn upper_char(c: char) -> char {
    match c {
        'a' => 'A',
        'b' => 'B',
        'c' => 'C',
        'd' => 'D',
        'e' => 'E',
        'f' => 'F',
        'g' => 'G',
        'h' => 'H',
        'i' => 'I',
        'j' => 'J',
        'k' => 'K',
        'l' => 'L',
        'm' => 'M',
        'n' => 'N',
        'o' => 'O',
        'p' => 'P',
        'q' => 'Q',
        'r' => 'R',
        's' => 'S',
        't' => 'T',
        'u' => 'U',
        'v' => 'V',
        'w' => 'W',
        'x' => 'X',
        'y' => 'Y',
        'z' => 'Z',
        _ => c,
    }
}

/// The ASCII uppercase form of a string.
pub open spec fn ascii_upper(s: Seq<char>) -> Seq<char> {
    Seq::new(s.len(), |i: int| upper_char(s[i]))
}

/// Compute [`upper_char`].
pub fn to_upper_char(c: char) -> (r: char)
    ensures
        r == upper_char(c),
{
    match c {
        'a' => 'A',
        'b' => 'B',
        'c' => 'C',
        'd' => 'D',
        'e' => 'E',
        'f' => 'F',
        'g' => 'G',
        'h' => 'H',
        'i' => 'I',
        'j' => 'J',
        'k' => 'K',
        'l' => 'L',
        'm' => 'M',
        'n' => 'N',
        'o' => 'O',
        'p' => 'P',
        'q' => 'Q',
        'r' => 'R',
        's' => 'S',
        't' => 'T',
        'u' => 'U',
        'v' => 'V',
        'w' => 'W',
        'x' => 'X',
        'y' => 'Y',
        'z' => 'Z',
        _ => c,
    }
}

/// Compute [`ascii_upper`].
pub fn to_ascii_uppercase(s: &str) -> (r: String)
    ensures
        r@ == ascii_upper(s@),
{
    let v = chars_of(s);
    let mut r = String::new();
    let n = v.len();
    for i in 0..n
        invariant
            n == v@.len(),
            v@ == s@,
            r@ == ascii_upper(s@.take(i as int)),
    {
        push_char(&mut r, to_upper_char(v[i]));
        assert(r@ =~= ascii_upper(s@.take(i + 1)));
    }
    assert(s@.take(n as int) =~= s@);
    r
}

/// The ASCII lowercase form of a character; other characters are unchanged.
pub open spec fn lower_char(c: char) -> char {
    match c {
        'A' => 'a',
        'B' => 'b',
        'C' => 'c',
        'D' => 'd',
        'E' => 'e',
        'F' => 'f',
        'G' => 'g',
        'H' => 'h',
        'I' => 'i',
        'J' => 'j',
        'K' => 'k',
        'L' => 'l',
        'M' => 'm',
        'N' => 'n',
        'O' => 'o',
        'P' => 'p',
        'Q' => 'q',
        'R' => 'r',
        'S' => 's',
        'T' => 't',
        'U' => 'u',
        'V' => 'v',
        'W' => 'w',
        'X' => 'x',
        'Y' => 'y',
        'Z' => 'z',
        _ => c,
    }
}

/// The ASCII lowercase form of a string.
pub open spec fn ascii_lower(s: Seq<char>) -> Seq<char> {
    Seq::new(s.len(), |i: int| lower_char(s[i]))
}

/// Compute [`lower_char`].
pub fn to_lower_char(c: char) -> (r: char)
    ensures
        r == lower_char(c),
{
    match c {
        'A' => 'a',
        'B' => 'b',
        'C' => 'c',
        'D' => 'd',
        'E' => 'e',
        'F' => 'f',
        'G' => 'g',
        'H' => 'h',
        'I' => 'i',
        'J' => 'j',
        'K' => 'k',
        'L' => 'l',
        'M' => 'm',
        'N' => 'n',
        'O' => 'o',
        'P' => 'p',
        'Q' => 'q',
        'R' => 'r',
        'S' => 's',
        'T' => 't',
        'U' => 'u',
        'V' => 'v',
        'W' => 'w',
        'X' => 'x',
        'Y' => 'y',
        'Z' => 'z',
        _ => c,
    }
}

/// Compute [`ascii_lower`].
pub fn to_ascii_lowercase(s: &str) -> (r: String)
    ensures
        r@ == ascii_lower(s@),
{
    let v = chars_of(s);
    let mut r = String::new();
    let n = v.len();
    for i in 0..n
        invariant
            n == v@.len(),
            v@ == s@,
            r@ == ascii_lower(s@.take(i as int)),
    {
        push_char(&mut r, to_lower_char(v[i]));
        assert(r@ =~= ascii_lower(s@.take(i + 1)));
    }
    assert(s@.take(n as int) =~= s@);
    r
}

} // verus!
