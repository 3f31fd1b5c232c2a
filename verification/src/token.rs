//! Validation rules for the string values that Kply sessions are built from:
//! session tokens, Kubernetes kinds, resource quantities, route headers and
//! hosts, container image references, and time-to-live durations.

use vstd::prelude::*;
use crate::text::{
    decimal, push_char, push_decimal, push_str, string_of, chars_contain, chars_eq, chars_of, class_contains, class_has, find_outside, first_outside,
    utf8_len, utf8_len_exceeds, CharClass, http_token_char, lemma_first_outside_none,
    lemma_header_name_chars_are_tokens, all_in,
};

verus! {

/// Maximum length in bytes of a session id, session name, namespace, or object name.
pub const SESSION_TOKEN_MAX_LEN: usize = 63;
/// Maximum length in bytes of a workload or resource kind.
pub const WORKLOAD_KIND_MAX_LEN: usize = 63;
/// Maximum length in bytes of a resource quantity.
pub const RESOURCE_QUANTITY_MAX_LEN: usize = 63;
/// Maximum allowed length for an image reference.
pub const IMAGE_REF_MAX_LEN: usize = 255;
/// Maximum allowed length for a route header name.
pub const ROUTE_HEADER_NAME_MAX_LEN: usize = 63;
/// Maximum allowed length for a route header value.
pub const ROUTE_HEADER_VALUE_MAX_LEN: usize = 255;
/// Maximum allowed length for a route host.
pub const ROUTE_HOST_MAX_LEN: usize = 253;
/// Maximum allowed length for a route host label.
pub const ROUTE_HOST_LABEL_MAX_LEN: usize = 63;
/// Maximum allowed length for a session time-to-live value.
pub const TIME_TO_LIVE_MAX_LEN: usize = 32;

/// Why a bounded token failed validation.
#[derive(Debug, Clone, Copy, PartialEq, Eq, Structural)]
pub enum ShapeError {
    /// The value is empty.
    Empty,
    /// The value is longer than the limit, in bytes.
    TooLong { max_len: usize },
    /// The first or last character is not a permitted boundary character.
    InvalidBoundary,
    /// The first character, from the left, outside the permitted set.
    InvalidCharacter { character: char },
}

/// The common rule for bounded tokens: non-empty, at most `max_len` bytes, an
/// optional boundary class for the first and last character, and a class that
/// every character must belong to. The checks apply in this order.
pub open spec fn shape_check(
    s: Seq<char>,
    max_len: usize,
    boundary: Option<CharClass>,
    allowed: CharClass,
) -> Result<(), ShapeError> {
    if s.len() == 0 {
        Err(ShapeError::Empty)
    } else if utf8_len(s) > max_len {
        Err(ShapeError::TooLong { max_len })
    } else if boundary matches Some(b) && (!class_has(b, s[0]) || !class_has(b, s.last())) {
        Err(ShapeError::InvalidBoundary)
    } else {
        match first_outside(s, allowed) {
            Some(c) => Err(ShapeError::InvalidCharacter { character: c }),
            None => Ok(()),
        }
    }
}

/// Apply [`shape_check`] to `s`.
pub fn check_shape(s: &[char], max_len: usize, boundary: Option<CharClass>, allowed: CharClass) -> (r:
    Result<(), ShapeError>)
    ensures
        r == shape_check(s@, max_len, boundary, allowed),
{
    if s.len() == 0 {
        return Err(ShapeError::Empty);
    }
    if utf8_len_exceeds(s, max_len) {
        return Err(ShapeError::TooLong { max_len });
    }
    if let Some(b) = boundary {
        if !class_contains(b, s[0]) || !class_contains(b, s[s.len() - 1]) {
            return Err(ShapeError::InvalidBoundary);
        }
    }
    match find_outside(s, allowed) {
        Some(c) => Err(ShapeError::InvalidCharacter { character: c }),
        None => Ok(()),
    }
}

/// Rule for session ids, session names, namespaces, and object names.
pub open spec fn session_token_check(s: Seq<char>) -> Result<(), ShapeError> {
    shape_check(s, SESSION_TOKEN_MAX_LEN, Some(CharClass::LowerAlnum), CharClass::Token)
}

/// Rule for Kubernetes kinds.
pub open spec fn workload_kind_check(s: Seq<char>) -> Result<(), ShapeError> {
    shape_check(s, WORKLOAD_KIND_MAX_LEN, Some(CharClass::Alnum), CharClass::Kind)
}

/// Rule for Kubernetes resource quantities.
pub open spec fn resource_quantity_check(s: Seq<char>) -> Result<(), ShapeError> {
    shape_check(s, RESOURCE_QUANTITY_MAX_LEN, Some(CharClass::Alnum), CharClass::Quantity)
}

/// Rule for route header names.
pub open spec fn header_name_check(s: Seq<char>) -> Result<(), ShapeError> {
    shape_check(s, ROUTE_HEADER_NAME_MAX_LEN, None, CharClass::HeaderName)
}

/// A route header name is accepted exactly when it is a non-empty HTTP token
/// of at most the maximum length in bytes: every character a token
/// character, whatever the case of its letters.
pub proof fn lemma_header_name_accepted(s: Seq<char>)
    ensures
        header_name_check(s) is Ok <==> (s.len() > 0 && utf8_len(s) <= ROUTE_HEADER_NAME_MAX_LEN
            && forall|i: int| 0 <= i < s.len() ==> http_token_char(#[trigger] s[i])),
{
    lemma_first_outside_none(s, CharClass::HeaderName);
    assert forall|i: int| 0 <= i < s.len() implies (class_has(CharClass::HeaderName, #[trigger] s[i])
        <==> http_token_char(s[i])) by {
        lemma_header_name_chars_are_tokens(s[i]);
    }
}

/// Rule for route header values.
pub open spec fn header_value_check(s: Seq<char>) -> Result<(), ShapeError> {
    shape_check(s, ROUTE_HEADER_VALUE_MAX_LEN, None, CharClass::Graphic)
}

/// Validate a session token.
pub fn validate_session_token(value: &str) -> (r: Result<(), ShapeError>)
    ensures
        r == session_token_check(value@),
{
    let v = chars_of(value);
    check_shape(&v, SESSION_TOKEN_MAX_LEN, Some(CharClass::LowerAlnum), CharClass::Token)
}

/// Validate a Kubernetes kind.
pub fn validate_workload_kind(value: &str) -> (r: Result<(), ShapeError>)
    ensures
        r == workload_kind_check(value@),
{
    let v = chars_of(value);
    check_shape(&v, WORKLOAD_KIND_MAX_LEN, Some(CharClass::Alnum), CharClass::Kind)
}

/// Validate a Kubernetes resource quantity.
pub fn validate_resource_quantity(value: &str) -> (r: Result<(), ShapeError>)
    ensures
        r == resource_quantity_check(value@),
{
    let v = chars_of(value);
    check_shape(&v, RESOURCE_QUANTITY_MAX_LEN, Some(CharClass::Alnum), CharClass::Quantity)
}

/// Validate a route header name.
pub fn validate_route_header_name(value: &str) -> (r: Result<(), ShapeError>)
    ensures
        r == header_name_check(value@),
        !(r matches Err(ShapeError::InvalidBoundary)),
{
    let v = chars_of(value);
    check_shape(&v, ROUTE_HEADER_NAME_MAX_LEN, None, CharClass::HeaderName)
}

/// Validate a route header value.
pub fn validate_route_header_value(value: &str) -> (r: Result<(), ShapeError>)
    ensures
        r == header_value_check(value@),
        !(r matches Err(ShapeError::InvalidBoundary)),
{
    let v = chars_of(value);
    check_shape(&v, ROUTE_HEADER_VALUE_MAX_LEN, None, CharClass::Graphic)
}

// ---------------------------------------------------------------------------
// Splitting on a delimiter.
/// The pieces of `s` between occurrences of `d`, like `str::split` with a
/// character pattern: there is always at least one piece, and `k` delimiters
/// give `k + 1` pieces.
pub open spec fn split_char(s: Seq<char>, d: char) -> Seq<Seq<char>>
    decreases s.len(),
{
    if s.len() == 0 {
        seq![Seq::<char>::empty()]
    } else {
        let prev = split_char(s.drop_last(), d);
        if s.last() == d {
            prev.push(Seq::<char>::empty())
        } else {
            prev.update(prev.len() - 1, prev.last().push(s.last()))
        }
    }
}

/// Splitting always yields at least one piece.
pub proof fn lemma_split_char_nonempty(s: Seq<char>, d: char)
    ensures
        split_char(s, d).len() >= 1,
    decreases s.len(),
{
    if s.len() > 0 {
        lemma_split_char_nonempty(s.drop_last(), d);
    }
}

/// Split `s` on every occurrence of `d`.
pub fn split_chars(s: &[char], d: char) -> (r: Vec<Vec<char>>)
    ensures
        r@.len() == split_char(s@, d).len(),
        forall|k: int| 0 <= k < r@.len() ==> (#[trigger] r@[k])@ == split_char(s@, d)[k],
{
    let n = s.len();
    let mut done: Vec<Vec<char>> = Vec::new();
    let mut cur: Vec<char> = Vec::new();
    let mut i: usize = 0;
    while i < n
        invariant
            n == s@.len(),
            0 <= i <= n,
            split_char(s@.take(i as int), d).len() == done@.len() + 1,
            forall|k: int|
                0 <= k < done@.len() ==> (#[trigger] done@[k])@ == split_char(
                    s@.take(i as int),
                    d,
                )[k],
            cur@ == split_char(s@.take(i as int), d).last(),
        decreases n - i,
    {
        let ghost prev = split_char(s@.take(i as int), d);
        proof {
            assert(s@.take(i + 1).drop_last() =~= s@.take(i as int));
            assert(s@.take(i + 1).last() == s@[i as int]);
            lemma_split_char_nonempty(s@.take(i as int), d);
        }
        if s[i] == d {
            let ghost old_done = done@;
            done.push(cur);
            cur = Vec::new();
            proof {
                let next = split_char(s@.take(i + 1), d);
                assert(next == prev.push(Seq::<char>::empty()));
                assert forall|k: int| 0 <= k < done@.len() implies (#[trigger] done@[k])@
                    == next[k] by {
                    if k < old_done.len() {
                        assert(done@[k] == old_done[k]);
                    }
                }
                assert(cur@ =~= next.last());
            }
        } else {
            cur.push(s[i]);
            proof {
                let next = split_char(s@.take(i + 1), d);
                assert(next == prev.update(prev.len() - 1, prev.last().push(s@[i as int])));
                assert(cur@ =~= next.last());
            }
        }
        i = i + 1;
    }
    assert(s@.take(n as int) =~= s@);
    let ghost old_done = done@;
    done.push(cur);
    proof {
        assert forall|k: int| 0 <= k < done@.len() implies (#[trigger] done@[k])@ == split_char(
            s@,
            d,
        )[k] by {
            if k < old_done.len() {
                assert(done@[k] == old_done[k]);
            }
        }
    }
    done
}

// ---------------------------------------------------------------------------
// Route hosts.
/// Error returned when a route host is not valid.
#[derive(Debug, Clone, Copy, PartialEq, Eq, Structural)]
pub enum RouteHostError {
    /// Hosts cannot be empty.
    Empty,
    /// Hosts must stay within DNS host length limits.
    TooLong { max_len: usize },
    /// Host labels must stay within DNS label length limits.
    LabelTooLong { max_len: usize },
    /// Hosts cannot contain empty labels.
    EmptyLabel,
    /// Hosts must start and end with a lowercase ASCII letter or digit.
    InvalidBoundary,
    /// Hosts only allow lowercase ASCII letters, digits, dots, and hyphens.
    InvalidCharacter { character: char },
}

/// Rule for one dot-separated label of a route host.
pub open spec fn host_label_check(l: Seq<char>) -> Result<(), RouteHostError> {
    if l.len() == 0 {
        Err(RouteHostError::EmptyLabel)
    } else if utf8_len(l) > ROUTE_HOST_LABEL_MAX_LEN {
        Err(RouteHostError::LabelTooLong { max_len: ROUTE_HOST_LABEL_MAX_LEN })
    } else if !class_has(CharClass::LowerAlnum, l[0]) || !class_has(CharClass::LowerAlnum, l.last()) {
        Err(RouteHostError::InvalidBoundary)
    } else {
        Ok(())
    }
}

/// The error of the first failing label, from the left.
pub open spec fn host_labels_check(ls: Seq<Seq<char>>) -> Result<(), RouteHostError>
    decreases ls.len(),
{
    if ls.len() == 0 {
        Ok(())
    } else {
        match host_label_check(ls[0]) {
            Err(e) => Err(e),
            Ok(_) => host_labels_check(ls.drop_first()),
        }
    }
}

/// Rule for route hosts: non-empty, at most 253 bytes, only host characters,
/// lowercase alphanumeric at both ends, then every label checked in order.
pub open spec fn route_host_check(s: Seq<char>) -> Result<(), RouteHostError> {
    if s.len() == 0 {
        Err(RouteHostError::Empty)
    } else if utf8_len(s) > ROUTE_HOST_MAX_LEN {
        Err(RouteHostError::TooLong { max_len: ROUTE_HOST_MAX_LEN })
    } else if first_outside(s, CharClass::Host) is Some {
        Err(RouteHostError::InvalidCharacter { character: first_outside(s, CharClass::Host)->0 })
    } else if !class_has(CharClass::LowerAlnum, s[0]) || !class_has(CharClass::LowerAlnum, s.last()) {
        Err(RouteHostError::InvalidBoundary)
    } else {
        host_labels_check(split_char(s, '.'))
    }
}

fn check_host_label(l: &[char]) -> (r: Result<(), RouteHostError>)
    ensures
        r == host_label_check(l@),
{
    if l.len() == 0 {
        return Err(RouteHostError::EmptyLabel);
    }
    if utf8_len_exceeds(l, ROUTE_HOST_LABEL_MAX_LEN) {
        return Err(RouteHostError::LabelTooLong { max_len: ROUTE_HOST_LABEL_MAX_LEN });
    }
    if !class_contains(CharClass::LowerAlnum, l[0]) || !class_contains(
        CharClass::LowerAlnum,
        l[l.len() - 1],
    ) {
        return Err(RouteHostError::InvalidBoundary);
    }
    Ok(())
}

/// Validate a route host.
#[verifier::loop_isolation(false)]
pub fn validate_route_host(value: &str) -> (r: Result<(), RouteHostError>)
    ensures
        r == route_host_check(value@),
{
    let v = chars_of(value);
    if v.len() == 0 {
        return Err(RouteHostError::Empty);
    }
    if utf8_len_exceeds(&v, ROUTE_HOST_MAX_LEN) {
        return Err(RouteHostError::TooLong { max_len: ROUTE_HOST_MAX_LEN });
    }
    if let Some(c) = find_outside(&v, CharClass::Host) {
        return Err(RouteHostError::InvalidCharacter { character: c });
    }
    if !class_contains(CharClass::LowerAlnum, v[0]) || !class_contains(
        CharClass::LowerAlnum,
        v[v.len() - 1],
    ) {
        return Err(RouteHostError::InvalidBoundary);
    }
    let labels = split_chars(&v, '.');
    let ghost ls = split_char(v@, '.');
    let n = labels.len();
    let mut k: usize = 0;
    assert(ls.skip(0) =~= ls);
    while k < n
        invariant
            n == labels@.len(),
            n == ls.len(),
            ls == split_char(v@, '.'),
            forall|j: int| 0 <= j < labels@.len() ==> (#[trigger] labels@[j])@ == ls[j],
            0 <= k <= n,
            host_labels_check(ls) == host_labels_check(ls.skip(k as int)),
        decreases n - k,
    {
        let res = check_host_label(&labels[k]);
        proof {
            assert(ls.skip(k as int)[0] == ls[k as int]);
            assert(ls.skip(k as int).drop_first() =~= ls.skip(k + 1));
        }
        if res.is_err() {
            assert(labels@[k as int]@ == ls[k as int]);
            assert(host_labels_check(ls.skip(k as int)) == res);
            return res;
        }
        k = k + 1;
    }
    assert(ls.skip(n as int).len() == 0);
    Ok(())
}

// ---------------------------------------------------------------------------
// Image references.
/// Error returned when an image reference is not valid.
#[derive(Debug, Clone, Copy, PartialEq, Eq, Structural)]
pub enum ImageRefError {
    /// Image references cannot be empty.
    Empty,
    /// Image references must stay bounded for stable reports and labels.
    TooLong { max_len: usize },
    /// Image references must include a non-empty image name component.
    MissingName,
    /// Image references must start and end with an ASCII letter, digit, or digest value.
    InvalidBoundary,
    /// Image references only allow ASCII image reference characters.
    InvalidCharacter { character: char },
}

/// Separators between image reference components.
pub open spec fn is_image_delimiter(c: char) -> bool {
    c == '/' || c == ':' || c == '@'
}

/// Splitting on `/`, `:`, and `@` leaves an empty piece.
pub open spec fn has_empty_component(s: Seq<char>) -> bool {
    ||| s.len() == 0
    ||| is_image_delimiter(s[0])
    ||| is_image_delimiter(s.last())
    ||| exists|i: int|
        0 <= i < s.len() - 1 && is_image_delimiter(#[trigger] s[i]) && is_image_delimiter(
            s[i + 1],
        )
}

/// The characters of `s` before the first `d`, or all of `s` when `d` does not occur.
pub open spec fn prefix_before(s: Seq<char>, d: char) -> Seq<char>
    decreases s.len(),
{
    if s.len() == 0 {
        s
    } else if s[0] == d {
        Seq::<char>::empty()
    } else {
        seq![s[0]] + prefix_before(s.drop_first(), d)
    }
}

/// A prefix free of `d` passes unchanged into [`prefix_before`].
pub proof fn lemma_prefix_before_skip(s: Seq<char>, d: char, i: int)
    requires
        0 <= i <= s.len(),
        forall|j: int| 0 <= j < i ==> #[trigger] s[j] != d,
    ensures
        prefix_before(s, d) == s.take(i) + prefix_before(s.skip(i), d),
    decreases i,
{
    if i > 0 {
        let t = s.drop_first();
        assert forall|j: int| 0 <= j < i - 1 implies #[trigger] t[j] != d by {
            assert(t[j] == s[j + 1]);
        }
        lemma_prefix_before_skip(t, d, i - 1);
        assert(t.skip(i - 1) =~= s.skip(i));
        assert(seq![s[0]] + t.take(i - 1) =~= s.take(i));
    } else {
        assert(s.skip(0) =~= s);
        assert(s.take(0) =~= Seq::<char>::empty());
    }
}

/// The characters of `s` before the first `d`.
pub fn chars_before(s: &[char], d: char) -> (r: Vec<char>)
    ensures
        r@ == prefix_before(s@, d),
{
    let n = s.len();
    let mut r: Vec<char> = Vec::new();
    let mut i: usize = 0;
    while i < n
        invariant
            n == s@.len(),
            0 <= i <= n,
            forall|j: int| 0 <= j < i ==> #[trigger] s@[j] != d,
            r@ == s@.take(i as int),
        decreases n - i,
    {
        if s[i] == d {
            proof {
                lemma_prefix_before_skip(s@, d, i as int);
                assert(s@.skip(i as int)[0] == d);
                assert(prefix_before(s@.skip(i as int), d) =~= Seq::<char>::empty());
            }
            return r;
        }
        r.push(s[i]);
        assert(r@ =~= s@.take(i + 1));
        i = i + 1;
    }
    proof {
        lemma_prefix_before_skip(s@, d, n as int);
        assert(s@.skip(n as int) =~= Seq::<char>::empty());
        assert(s@.take(n as int) =~= s@);
    }
    r
}

/// The path components of an image reference, ignoring any digest after `@`
/// and any tag after `:` in the last component.
pub open spec fn image_components(s: Seq<char>) -> Seq<Seq<char>> {
    let cs = split_char(prefix_before(s, '@'), '/');
    cs.update(cs.len() - 1, prefix_before(cs.last(), ':'))
}

/// A first component that names a registry host.
pub open spec fn is_registry_component(c: Seq<char>) -> bool {
    c == "localhost"@ || c.contains('.') || c.contains(':')
}

/// Characters permitted in component `k`.
pub open spec fn component_class(cs: Seq<Seq<char>>, k: int) -> CharClass {
    if k == 0 && is_registry_component(cs[0]) {
        CharClass::ImageRegistry
    } else {
        CharClass::ImageRepository
    }
}

/// The first offending character among components `k..`, in component order.
pub open spec fn components_error(cs: Seq<Seq<char>>, k: int) -> Option<char>
    decreases cs.len() - k,
{
    if k < 0 || k >= cs.len() {
        None
    } else {
        match first_outside(cs[k], component_class(cs, k)) {
            Some(c) => Some(c),
            None => components_error(cs, k + 1),
        }
    }
}

/// Rule for image references, checked in this order: non-empty, at most 255
/// bytes, alphanumeric at both ends, only image characters, no empty
/// component, then registry and repository characters per component.
pub open spec fn image_ref_check(s: Seq<char>) -> Result<(), ImageRefError> {
    if s.len() == 0 {
        Err(ImageRefError::Empty)
    } else if utf8_len(s) > IMAGE_REF_MAX_LEN {
        Err(ImageRefError::TooLong { max_len: IMAGE_REF_MAX_LEN })
    } else if !class_has(CharClass::Alnum, s[0]) || !class_has(CharClass::Alnum, s.last()) {
        Err(ImageRefError::InvalidBoundary)
    } else if first_outside(s, CharClass::Image) is Some {
        Err(ImageRefError::InvalidCharacter { character: first_outside(s, CharClass::Image)->0 })
    } else if has_empty_component(s) {
        Err(ImageRefError::MissingName)
    } else {
        match components_error(image_components(s), 0) {
            Some(c) => Err(ImageRefError::InvalidCharacter { character: c }),
            None => Ok(()),
        }
    }
}

fn empty_component_exists(s: &[char]) -> (r: bool)
    requires
        s@.len() > 0,
    ensures
        r == has_empty_component(s@),
{
    let n = s.len();
    let is_delim_first = s[0] == '/' || s[0] == ':' || s[0] == '@';
    let is_delim_last = s[n - 1] == '/' || s[n - 1] == ':' || s[n - 1] == '@';
    if is_delim_first || is_delim_last {
        return true;
    }
    let mut i: usize = 0;
    while i + 1 < n
        invariant
            n == s@.len(),
            n > 0,
            0 <= i < n,
            forall|j: int|
                0 <= j < i ==> !(is_image_delimiter(#[trigger] s@[j]) && is_image_delimiter(
                    s@[j + 1],
                )),
        decreases n - i,
    {
        let a = s[i] == '/' || s[i] == ':' || s[i] == '@';
        let b = s[i + 1] == '/' || s[i + 1] == ':' || s[i + 1] == '@';
        if a && b {
            assert(is_image_delimiter(s@[i as int]) && is_image_delimiter(s@[i + 1]));
            return true;
        }
        i = i + 1;
    }
    false
}

fn is_registry(c: &[char]) -> (r: bool)
    ensures
        r == is_registry_component(c@),
{
    let localhost = chars_of("localhost");
    chars_eq(c, &localhost) || chars_contain(c, '.') || chars_contain(c, ':')
}

/// Validate an image reference.
#[verifier::loop_isolation(false)]
pub fn validate_image_ref(value: &str) -> (r: Result<(), ImageRefError>)
    ensures
        r == image_ref_check(value@),
{
    let v = chars_of(value);
    if v.len() == 0 {
        return Err(ImageRefError::Empty);
    }
    if utf8_len_exceeds(&v, IMAGE_REF_MAX_LEN) {
        return Err(ImageRefError::TooLong { max_len: IMAGE_REF_MAX_LEN });
    }
    if !class_contains(CharClass::Alnum, v[0]) || !class_contains(CharClass::Alnum, v[v.len() - 1]) {
        return Err(ImageRefError::InvalidBoundary);
    }
    if let Some(c) = find_outside(&v, CharClass::Image) {
        return Err(ImageRefError::InvalidCharacter { character: c });
    }
    if empty_component_exists(&v) {
        return Err(ImageRefError::MissingName);
    }
    let without_digest = chars_before(&v, '@');
    let parts = split_chars(&without_digest, '/');
    let ghost cs = image_components(v@);
    let n = parts.len();
    proof {
        lemma_split_char_nonempty(without_digest@, '/');
    }
    let mut k: usize = 0;
    while k < n
        invariant
            n == parts@.len(),
            n >= 1,
            cs == image_components(v@),
            cs.len() == n,
            forall|j: int| 0 <= j < n - 1 ==> (#[trigger] parts@[j])@ == cs[j],
            prefix_before(parts@[n - 1]@, ':') == cs[n - 1],
            0 <= k <= n,
            components_error(cs, 0) == components_error(cs, k as int),
        decreases n - k,
    {
        let component = if k == n - 1 {
            chars_before(&parts[k], ':')
        } else {
            let mut copy: Vec<char> = Vec::new();
            copy.extend_from_slice(&parts[k]);
            copy
        };
        assert(component@ == cs[k as int]);
        let class = if k == 0 && is_registry(&component) {
            CharClass::ImageRegistry
        } else {
            CharClass::ImageRepository
        };
        assert(class == component_class(cs, k as int));
        if let Some(c) = find_outside(&component, class) {
            assert(components_error(cs, k as int) == Some(c));
            return Err(ImageRefError::InvalidCharacter { character: c });
        }
        k = k + 1;
    }
    Ok(())
}

// ---------------------------------------------------------------------------
// Time-to-live durations.
/// Error returned when a time-to-live value is not valid.
#[derive(Debug, Clone, Copy, PartialEq, Eq, Structural)]
pub enum TimeToLiveError {
    /// Time-to-live values cannot be empty.
    Empty,
    /// Time-to-live values cannot exceed the maximum length.
    TooLong { max_len: usize },
    /// Time-to-live values must end with a supported unit.
    InvalidUnit { unit: char },
    /// Time-to-live values must start with ASCII digits.
    InvalidNumber,
    /// Time-to-live values must be greater than zero.
    Zero,
}

/// Supported duration units: seconds, minutes, hours, days.
pub open spec fn is_duration_unit(c: char) -> bool {
    c == 's' || c == 'm' || c == 'h' || c == 'd'
}

/// Rule for time-to-live values: one or more ASCII digits, not all zero,
/// followed by one unit character, at most 32 bytes in all.
pub open spec fn time_to_live_check(s: Seq<char>) -> Result<(), TimeToLiveError> {
    if s.len() == 0 {
        Err(TimeToLiveError::Empty)
    } else if utf8_len(s) > TIME_TO_LIVE_MAX_LEN {
        Err(TimeToLiveError::TooLong { max_len: TIME_TO_LIVE_MAX_LEN })
    } else if !is_duration_unit(s.last()) {
        Err(TimeToLiveError::InvalidUnit { unit: s.last() })
    } else if s.drop_last().len() == 0 || !crate::text::all_in(s.drop_last(), CharClass::Digit) {
        Err(TimeToLiveError::InvalidNumber)
    } else if forall|i: int| 0 <= i < s.len() - 1 ==> #[trigger] s[i] == '0' {
        Err(TimeToLiveError::Zero)
    } else {
        Ok(())
    }
}

/// Validate a time-to-live value.
#[verifier::loop_isolation(false)]
pub fn validate_time_to_live(value: &str) -> (r: Result<(), TimeToLiveError>)
    ensures
        r == time_to_live_check(value@),
{
    let v = chars_of(value);
    if v.len() == 0 {
        return Err(TimeToLiveError::Empty);
    }
    if utf8_len_exceeds(&v, TIME_TO_LIVE_MAX_LEN) {
        return Err(TimeToLiveError::TooLong { max_len: TIME_TO_LIVE_MAX_LEN });
    }
    let n = v.len();
    let unit = v[n - 1];
    if !(unit == 's' || unit == 'm' || unit == 'h' || unit == 'd') {
        return Err(TimeToLiveError::InvalidUnit { unit });
    }
    let mut digits: Vec<char> = Vec::new();
    let mut i: usize = 0;
    while i + 1 < n
        invariant
            n == v@.len(),
            n > 0,
            0 <= i < n,
            digits@ == v@.take(i as int),
        decreases n - i,
    {
        digits.push(v[i]);
        assert(digits@ =~= v@.take(i + 1));
        i = i + 1;
    }
    assert(digits@ =~= v@.drop_last());
    if digits.len() == 0 || !crate::text::all_chars_in(&digits, CharClass::Digit) {
        return Err(TimeToLiveError::InvalidNumber);
    }
    let mut j: usize = 0;
    while j < digits.len()
        invariant
            digits@ == v@.drop_last(),
            0 <= j <= digits@.len(),
            forall|t: int| 0 <= t < j ==> #[trigger] v@[t] == '0',
        decreases digits@.len() - j,
    {
        if digits[j] != '0' {
            assert(digits@[j as int] == v@[j as int]);
            return Ok(());
        }
        j = j + 1;
    }
    Err(TimeToLiveError::Zero)
}

// ---------------------------------------------------------------------------
// Messages.
/// Message for a bounded-token error about `subject`; `boundary` completes the
/// sentence for a boundary error.
pub open spec fn shape_text(subject: Seq<char>, boundary: Seq<char>, e: ShapeError) -> Seq<char> {
    match e {
        ShapeError::Empty => subject + " cannot be empty"@,
        ShapeError::TooLong { max_len } => subject + " cannot exceed "@ + decimal(max_len as nat)
            + " characters"@,
        ShapeError::InvalidBoundary => subject + boundary,
        ShapeError::InvalidCharacter { character } => subject + " contains invalid character `"@
            + seq![character] + "`"@,
    }
}

/// Build the message described by [`shape_text`].
pub fn shape_message(subject: &str, boundary: &str, e: ShapeError) -> (m: String)
    ensures
        m@ == shape_text(subject@, boundary@, e),
{
    let mut m = string_of(subject);
    match e {
        ShapeError::Empty => {
            push_str(&mut m, " cannot be empty");
        },
        ShapeError::TooLong { max_len } => {
            push_str(&mut m, " cannot exceed ");
            push_decimal(&mut m, max_len as u64);
            push_str(&mut m, " characters");
        },
        ShapeError::InvalidBoundary => {
            push_str(&mut m, boundary);
        },
        ShapeError::InvalidCharacter { character } => {
            push_str(&mut m, " contains invalid character `");
            push_char(&mut m, character);
            push_str(&mut m, "`");
        },
    }
    m
}

/// Sentence ending for lowercase-alphanumeric boundaries.
pub open spec fn lower_boundary_text() -> Seq<char> {
    " must start and end with a lowercase ASCII letter or digit"@
}

/// Sentence ending for alphanumeric boundaries.
pub open spec fn alnum_boundary_text() -> Seq<char> {
    " must start and end with an ASCII letter or digit"@
}

impl RouteHostError {
    /// The human-readable message for this error.
    pub open spec fn text(self) -> Seq<char> {
        match self {
            RouteHostError::Empty => "route host cannot be empty"@,
            RouteHostError::TooLong { max_len } => "route host cannot exceed "@ + decimal(
                max_len as nat,
            ) + " characters"@,
            RouteHostError::LabelTooLong { max_len } => "route host label cannot exceed "@
                + decimal(max_len as nat) + " characters"@,
            RouteHostError::EmptyLabel => "route host cannot contain empty labels"@,
            RouteHostError::InvalidBoundary => "route host"@ + lower_boundary_text(),
            RouteHostError::InvalidCharacter { character } =>
                "route host contains invalid character `"@ + seq![character] + "`"@,
        }
    }

    /// Render the human-readable message for this error.
    pub fn to_string(&self) -> (m: String)
        ensures
            m@ == self.text(),
    {
        match *self {
            RouteHostError::Empty => string_of("route host cannot be empty"),
            RouteHostError::TooLong { max_len } => {
                let mut m = string_of("route host cannot exceed ");
                push_decimal(&mut m, max_len as u64);
                push_str(&mut m, " characters");
                m
            },
            RouteHostError::LabelTooLong { max_len } => {
                let mut m = string_of("route host label cannot exceed ");
                push_decimal(&mut m, max_len as u64);
                push_str(&mut m, " characters");
                m
            },
            RouteHostError::EmptyLabel => string_of("route host cannot contain empty labels"),
            RouteHostError::InvalidBoundary => {
                let mut m = string_of("route host");
                push_str(&mut m, " must start and end with a lowercase ASCII letter or digit");
                m
            },
            RouteHostError::InvalidCharacter { character } => {
                let mut m = string_of("route host contains invalid character `");
                push_char(&mut m, character);
                push_str(&mut m, "`");
                m
            },
        }
    }
}

impl ImageRefError {
    /// The human-readable message for this error.
    pub open spec fn text(self) -> Seq<char> {
        match self {
            ImageRefError::Empty => "image ref cannot be empty"@,
            ImageRefError::TooLong { max_len } => "image ref cannot exceed "@ + decimal(
                max_len as nat,
            ) + " characters"@,
            ImageRefError::MissingName => "image ref must include an image name"@,
            ImageRefError::InvalidBoundary => "image ref has an invalid boundary character"@,
            ImageRefError::InvalidCharacter { character } =>
                "image ref contains invalid character `"@ + seq![character] + "`"@,
        }
    }

    /// Render the human-readable message for this error.
    pub fn to_string(&self) -> (m: String)
        ensures
            m@ == self.text(),
    {
        match *self {
            ImageRefError::Empty => string_of("image ref cannot be empty"),
            ImageRefError::TooLong { max_len } => {
                let mut m = string_of("image ref cannot exceed ");
                push_decimal(&mut m, max_len as u64);
                push_str(&mut m, " characters");
                m
            },
            ImageRefError::MissingName => string_of("image ref must include an image name"),
            ImageRefError::InvalidBoundary => string_of(
                "image ref has an invalid boundary character",
            ),
            ImageRefError::InvalidCharacter { character } => {
                let mut m = string_of("image ref contains invalid character `");
                push_char(&mut m, character);
                push_str(&mut m, "`");
                m
            },
        }
    }
}

impl TimeToLiveError {
    /// The human-readable message for this error.
    pub open spec fn text(self) -> Seq<char> {
        match self {
            TimeToLiveError::Empty => "ttl cannot be empty"@,
            TimeToLiveError::TooLong { max_len } => "ttl cannot exceed "@ + decimal(max_len as nat)
                + " characters"@,
            TimeToLiveError::InvalidUnit { unit } => "invalid ttl unit `"@ + seq![unit]
                + "`; expected s, m, h, or d"@,
            TimeToLiveError::InvalidNumber => "invalid ttl; expected a positive integer duration"@,
            TimeToLiveError::Zero => "invalid ttl; duration must be greater than zero"@,
        }
    }

    /// Render the human-readable message for this error.
    pub fn to_string(&self) -> (m: String)
        ensures
            m@ == self.text(),
    {
        match *self {
            TimeToLiveError::Empty => string_of("ttl cannot be empty"),
            TimeToLiveError::TooLong { max_len } => {
                let mut m = string_of("ttl cannot exceed ");
                push_decimal(&mut m, max_len as u64);
                push_str(&mut m, " characters");
                m
            },
            TimeToLiveError::InvalidUnit { unit } => {
                let mut m = string_of("invalid ttl unit `");
                push_char(&mut m, unit);
                push_str(&mut m, "`; expected s, m, h, or d");
                m
            },
            TimeToLiveError::InvalidNumber => string_of(
                "invalid ttl; expected a positive integer duration",
            ),
            TimeToLiveError::Zero => string_of("invalid ttl; duration must be greater than zero"),
        }
    }
}

} // verus!
