//! Kubernetes labels and annotations planned for session resources.

use vstd::prelude::*;
use crate::order::{
    key_lt, key_order, lemma_increasing_keys_determined, lemma_key_lt_transitive, lemma_str_key_injective,
    push_str_key, str_key, views,
};
use crate::text::{chars_of, push_str, str_eq, string_of, CharClass};
use crate::token::{alnum_boundary_text, check_shape, shape_check, shape_message, shape_text, ShapeError};

verus! {

/// Maximum length in bytes of a label or annotation key.
pub const METADATA_KEY_MAX_LEN: usize = 253;
/// Maximum length in bytes of a label value.
pub const LABEL_VALUE_MAX_LEN: usize = 63;

/// Rule for label and annotation keys.
pub open spec fn metadata_key_check(k: Seq<char>) -> Result<(), ShapeError> {
    shape_check(k, METADATA_KEY_MAX_LEN, Some(CharClass::Alnum), CharClass::MetadataKey)
}

/// Rule for label values: empty, or a bounded token.
pub open spec fn label_value_check(v: Seq<char>) -> Result<(), ShapeError> {
    if v.len() == 0 {
        Ok(())
    } else {
        shape_check(v, LABEL_VALUE_MAX_LEN, Some(CharClass::Alnum), CharClass::LabelValue)
    }
}

/// Error returned when a [`MetadataEntry`] is not valid.
#[derive(Debug, Clone, Copy, PartialEq, Eq, Structural)]
pub enum MetadataEntryError {
    /// Keys are non-empty, bounded, start and end with an ASCII letter or
    /// digit, and use ASCII letters, digits, `.`, `_`, `-`, and `/`.
    Key(ShapeError),
    /// Label values are empty or bounded, start and end with an ASCII letter
    /// or digit, and use ASCII letters, digits, `.`, `_`, and `-`.
    LabelValue(ShapeError),
}

impl MetadataEntryError {
    /// The human-readable message for this error.
    pub open spec fn text(self) -> Seq<char> {
        match self {
            MetadataEntryError::Key(e) => "invalid metadata key: "@ + shape_text(
                "metadata key"@,
                alnum_boundary_text(),
                e,
            ),
            MetadataEntryError::LabelValue(e) => "invalid label value: "@ + shape_text(
                "label value"@,
                alnum_boundary_text(),
                e,
            ),
        }
    }

    /// Render the human-readable message for this error.
    pub fn to_string(&self) -> (m: String)
        ensures
            m@ == self.text(),
    {
        match self {
            MetadataEntryError::Key(e) => {
                let mut m = string_of("invalid metadata key: ");
                let t = shape_message(
                    "metadata key",
                    " must start and end with an ASCII letter or digit",
                    *e,
                );
                push_str(&mut m, t.as_str());
                m
            },
            MetadataEntryError::LabelValue(e) => {
                let mut m = string_of("invalid label value: ");
                let t = shape_message(
                    "label value",
                    " must start and end with an ASCII letter or digit",
                    *e,
                );
                push_str(&mut m, t.as_str());
                m
            },
        }
    }
}

/// A key and value planned as a label or annotation.
#[derive(Debug, PartialEq, Eq, Hash, PartialOrd, Ord)]
pub struct MetadataEntry {
    key: String,
    value: String,
}

impl View for MetadataEntry {
    type V = (Seq<char>, Seq<char>);

    closed spec fn view(&self) -> (Seq<char>, Seq<char>) {
        (self.key@, self.value@)
    }
}

/// Check a metadata key.
fn validate_metadata_key(key: &str) -> (r: Result<(), ShapeError>)
    ensures
        r == metadata_key_check(key@),
{
    let v = chars_of(key);
    check_shape(&v, METADATA_KEY_MAX_LEN, Some(CharClass::Alnum), CharClass::MetadataKey)
}

/// Check a label value.
fn validate_label_value(value: &str) -> (r: Result<(), ShapeError>)
    ensures
        r == label_value_check(value@),
{
    let v = chars_of(value);
    if v.len() == 0 {
        return Ok(());
    }
    check_shape(&v, LABEL_VALUE_MAX_LEN, Some(CharClass::Alnum), CharClass::LabelValue)
}

impl MetadataEntry {
    #[verifier::type_invariant]
    spec fn well_formed(self) -> bool {
        metadata_key_check(self.key@) is Ok
    }

    /// Create an annotation entry: any value under a valid key.
    pub fn new(key: &str, value: &str) -> (r: Result<Self, MetadataEntryError>)
        ensures
            match r {
                Ok(e) => metadata_key_check(key@) is Ok && e@ == (key@, value@),
                Err(MetadataEntryError::Key(e)) => metadata_key_check(key@) == Err::<(), ShapeError>(e),
                Err(MetadataEntryError::LabelValue(_)) => false,
            },
    {
        match validate_metadata_key(key) {
            Ok(()) => Ok(MetadataEntry { key: string_of(key), value: string_of(value) }),
            Err(e) => Err(MetadataEntryError::Key(e)),
        }
    }

    /// Create a label entry: a valid key and a valid label value.
    pub fn new_label(key: &str, value: &str) -> (r: Result<Self, MetadataEntryError>)
        ensures
            match r {
                Ok(e) => metadata_key_check(key@) is Ok && label_value_check(value@) is Ok && e@ == (
                key@, value@),
                Err(MetadataEntryError::Key(e)) => metadata_key_check(key@) == Err::<(), ShapeError>(e),
                Err(MetadataEntryError::LabelValue(e)) => metadata_key_check(key@) is Ok
                    && label_value_check(value@) == Err::<(), ShapeError>(e),
            },
    {
        if let Err(e) = validate_metadata_key(key) {
            return Err(MetadataEntryError::Key(e));
        }
        if let Err(e) = validate_label_value(value) {
            return Err(MetadataEntryError::LabelValue(e));
        }
        Ok(MetadataEntry { key: string_of(key), value: string_of(value) })
    }

    /// Borrow the key.
    pub fn key(&self) -> (r: &str)
        ensures
            r@ == self@.0,
            metadata_key_check(r@) is Ok,
    {
        proof {
            use_type_invariant(self);
        }
        self.key.as_str()
    }

    /// Borrow the value.
    pub fn value(&self) -> (r: &str)
        ensures
            r@ == self@.1,
    {
        self.value.as_str()
    }
}

impl Clone for MetadataEntry {
    fn clone(&self) -> (r: Self)
        ensures
            r@ == self@,
    {
        proof {
            use_type_invariant(self);
        }
        MetadataEntry { key: self.key.clone(), value: self.value.clone() }
    }
}

/// Keys strictly increase along `s`, so no key occurs twice.
pub open spec fn keys_sorted(s: Seq<MetadataEntry>) -> bool {
    forall|i: int, j: int| 0 <= i < j < s.len() ==> key_lt(str_key((#[trigger] s[i])@.0), str_key((#[trigger] s[j])@.0))
}

/// No later entry of `s` than the one at `j` has the same key.
#[verifier::opaque]
pub open spec fn last_of_key(s: Seq<MetadataEntry>, j: int) -> bool {
    forall|q: int| j < q < s.len() ==> (#[trigger] s[q])@.0 != s[j]@.0
}

/// The entry of `s` at `j` is `e`, and it is the last of its key.
pub open spec fn kept_from(e: MetadataEntry, s: Seq<MetadataEntry>, j: int) -> bool {
    0 <= j < s.len() && s[j]@ == e@ && last_of_key(s, j)
}

/// Some entry of `s` is the entry of `r` at `i` and the last of its key.
pub open spec fn has_source(r: Seq<MetadataEntry>, s: Seq<MetadataEntry>, i: int) -> bool {
    exists|j: int| #[trigger] kept_from(r[i], s, j)
}

/// Some entry of `r` has the key of the entry of `s` at `j`.
pub open spec fn has_key(r: Seq<MetadataEntry>, s: Seq<MetadataEntry>, j: int) -> bool {
    exists|i: int| #[trigger] key_at(r, i, s[j]@.0)
}

/// The entry of `r` at `i` has key `k`.
pub open spec fn key_at(r: Seq<MetadataEntry>, i: int, k: Seq<char>) -> bool {
    0 <= i < r.len() && r[i]@.0 == k
}

/// Some entry of `s` has key `k`.
pub open spec fn present(s: Seq<MetadataEntry>, k: Seq<char>) -> bool {
    exists|i: int| #[trigger] key_at(s, i, k)
}

/// `r` holds, in key order, the last entry of `s` for each key of `s`.
#[verifier::opaque]
pub open spec fn last_per_key(r: Seq<MetadataEntry>, s: Seq<MetadataEntry>) -> bool {
    &&& keys_sorted(r)
    &&& forall|i: int| 0 <= i < r.len() ==> #[trigger] has_source(r, s, i)
    &&& forall|j: int| 0 <= j < s.len() ==> #[trigger] has_key(r, s, j)
}

/// Entries of `s` with the same key carry the same value.
#[verifier::opaque]
pub open spec fn conflict_free(s: Seq<MetadataEntry>) -> bool {
    forall|i: int, j: int| 0 <= i < s.len() && 0 <= j < s.len() && (#[trigger] s[i])@.0 == (#[trigger] s[j])@.0 ==> s[i]@.1 == s[j]@.1
}

/// The last entry of a sequence is the last of its key.
proof fn lemma_last_of_key_end(s: Seq<MetadataEntry>)
    requires
        s.len() > 0,
    ensures
        last_of_key(s, s.len() - 1),
{
    reveal(last_of_key);
}

/// Appending an entry with another key keeps an entry the last of its key.
proof fn lemma_last_of_key_extend(pre: Seq<MetadataEntry>, post: Seq<MetadataEntry>, j: int)
    requires
        0 <= j < pre.len(),
        post.len() == pre.len() + 1,
        post.drop_last() == pre,
        last_of_key(pre, j),
        post.last()@.0 != pre[j]@.0,
    ensures
        last_of_key(post, j),
{
    reveal(last_of_key);
    assert forall|q: int| j < q < post.len() implies (#[trigger] post[q])@.0 != post[j]@.0 by {
        assert(post[j] == post.drop_last()[j]);
        if q < pre.len() {
            assert(post[q] == post.drop_last()[q]);
        }
    }
}

/// Entries under `key` in `s` disagree about the value.
pub open spec fn conflict_at(s: Seq<MetadataEntry>, key: Seq<char>) -> bool {
    exists|i: int, j: int| 0 <= i < s.len() && 0 <= j < s.len() && (#[trigger] s[i])@.0 == key && (#[trigger] s[j])@.0 == key && s[i]@.1 != s[j]@.1
}

/// The key of an entry's key string.
fn entry_key(e: &MetadataEntry) -> (k: Vec<u32>)
    ensures
        k@ == str_key(e@.0),
{
    let mut k = Vec::new();
    push_str_key(&mut k, e.key());
    assert(k@ =~= str_key(e@.0));
    k
}

/// Find where a key belongs among strictly increasing keys: the first
/// position whose key is not below it, and whether that key is equal.
fn locate(ks: &Vec<Vec<u32>>, ek: &Vec<u32>) -> (r: (usize, bool))
    ensures
        r.0 <= ks@.len(),
        forall|q: int| 0 <= q < r.0 ==> key_lt((#[trigger] ks@[q])@, ek@),
        r.1 ==> r.0 < ks@.len() && ks@[r.0 as int]@ == ek@,
        !r.1 && r.0 < ks@.len() ==> key_lt(ek@, ks@[r.0 as int]@),
{
    let mut p: usize = 0;
    while p < ks.len()
        invariant
            0 <= p <= ks@.len(),
            forall|q: int| 0 <= q < p ==> key_lt((#[trigger] ks@[q])@, ek@),
        decreases ks@.len() - p,
    {
        let o = key_order(&ks[p], ek);
        if o == 0 {
            return (p, true);
        } else if o > 0 {
            return (p, false);
        }
        p = p + 1;
    }
    (p, false)
}

/// Replacing the entry whose key equals that of the next input entry keeps
/// `last_per_key`, and keeps the input free of conflicts when the values agree.
#[verifier::rlimit(80)]
proof fn lemma_replace_step(
    pre: Seq<MetadataEntry>,
    post: Seq<MetadataEntry>,
    old_out: Seq<MetadataEntry>,
    out: Seq<MetadataEntry>,
    p: int,
    x: MetadataEntry,
)
    requires
        post.drop_last() == pre,
        post.len() == pre.len() + 1,
        last_per_key(old_out, pre),
        0 <= p < old_out.len(),
        old_out[p]@.0 == post.last()@.0,
        x@ == post.last()@,
        out == old_out.update(p, x),
    ensures
        last_per_key(out, post),
        conflict_free(pre) && old_out[p]@.1 == post.last()@.1 ==> conflict_free(post),
{
    reveal(last_per_key);
    reveal(conflict_free);
    let i = pre.len() as int;
    assert(post[i] == post.last());
    assert forall|j: int| 0 <= j < pre.len() implies post[j] == pre[j] by {
        assert(post.drop_last()[j] == post[j]);
    }
    assert forall|a: int, b: int| 0 <= a < b < out.len() implies key_lt(str_key((#[trigger] out[a])@.0), str_key((#[trigger] out[b])@.0)) by {
        assert(old_out[a]@.0 == out[a]@.0);
        assert(old_out[b]@.0 == out[b]@.0);
    }
    assert forall|a: int| 0 <= a < out.len() implies #[trigger] has_source(out, post, a) by {
        if a == p {
            assert(post[i]@ == out[a]@);
            lemma_last_of_key_end(post);
            assert(kept_from(out[a], post, i));
        } else {
            assert(out[a] == old_out[a]);
            assert(has_source(old_out, pre, a));
            let j = choose|j: int| kept_from(old_out[a], pre, j);
            assert(old_out[a]@.0 != old_out[p]@.0) by {
                if a < p {
                    lemma_key_lt_irreflexive_at(str_key(old_out[a]@.0));
                } else {
                    lemma_key_lt_irreflexive_at(str_key(old_out[p]@.0));
                }
            }
            assert(post[j]@ == out[a]@);
            lemma_last_of_key_extend(pre, post, j);
            assert(kept_from(out[a], post, j));
        }
    }
    assert forall|j: int| 0 <= j < post.len() implies #[trigger] has_key(out, post, j) by {
        if j == i {
            assert(key_at(out, p, post[j]@.0));
        } else {
            assert(has_key(old_out, pre, j));
            let a = choose|a: int| key_at(old_out, a, pre[j]@.0);
            assert(key_at(out, a, post[j]@.0));
        }
    }
    if conflict_free(pre) && old_out[p]@.1 == post.last()@.1 {
        assert(has_source(old_out, pre, p));
        let jp = choose|j: int| kept_from(old_out[p], pre, j);
        assert forall|a: int, b: int| 0 <= a < post.len() && 0 <= b < post.len() && (#[trigger] post[a])@.0 == (#[trigger] post[b])@.0 implies post[a]@.1 == post[b]@.1 by {
            if a < i && b == i {
                assert(pre[a]@.0 == pre[jp]@.0);
            }
            if b < i && a == i {
                assert(pre[b]@.0 == pre[jp]@.0);
            }
            if a < i && b < i {
                assert(pre[a]@.0 == pre[b]@.0);
            }
        }
    }
}

/// Inserting the next input entry, whose key is new, at its place in key
/// order keeps `last_per_key` and keeps the input free of conflicts.
/// The facts shared by the parts of an insertion step.
pub open spec fn insert_step(
    pre: Seq<MetadataEntry>,
    post: Seq<MetadataEntry>,
    old_out: Seq<MetadataEntry>,
    out: Seq<MetadataEntry>,
    p: int,
    x: MetadataEntry,
) -> bool {
    &&& post.drop_last() == pre
    &&& post.len() == pre.len() + 1
    &&& 0 <= p <= old_out.len()
    &&& x@ == post.last()@
    &&& forall|q: int| 0 <= q < p ==> key_lt(str_key((#[trigger] old_out[q])@.0), str_key(post.last()@.0))
    &&& p < old_out.len() ==> key_lt(str_key(post.last()@.0), str_key(old_out[p]@.0))
    &&& out == old_out.insert(p, x)
}

/// Insertion keeps keys strictly increasing.
proof fn lemma_insert_sorted(
    pre: Seq<MetadataEntry>,
    post: Seq<MetadataEntry>,
    old_out: Seq<MetadataEntry>,
    out: Seq<MetadataEntry>,
    p: int,
    x: MetadataEntry,
)
    requires
        insert_step(pre, post, old_out, out, p, x),
        keys_sorted(old_out),
    ensures
        keys_sorted(out),
        forall|q: int| 0 <= q < old_out.len() ==> (#[trigger] old_out[q])@.0 != post.last()@.0,
{
    let ek = str_key(post.last()@.0);
    assert forall|a: int, b: int| 0 <= a < b < out.len() implies key_lt(str_key((#[trigger] out[a])@.0), str_key((#[trigger] out[b])@.0)) by {
        if b < p {
            assert(out[a] == old_out[a] && out[b] == old_out[b]);
        } else if b == p {
            assert(out[a] == old_out[a]);
        } else if a == p {
            assert(out[b] == old_out[b - 1]);
            if b - 1 > p {
                lemma_key_lt_transitive(ek, str_key(old_out[p]@.0), str_key(old_out[b - 1]@.0));
            }
        } else if a < p {
            assert(out[a] == old_out[a] && out[b] == old_out[b - 1]);
        } else {
            assert(out[a] == old_out[a - 1] && out[b] == old_out[b - 1]);
        }
    }
    assert forall|q: int| 0 <= q < old_out.len() implies (#[trigger] old_out[q])@.0 != post.last()@.0 by {
        if old_out[q]@.0 == post.last()@.0 {
            if q < p {
                lemma_key_lt_irreflexive_at(ek);
            } else {
                if q > p {
                    lemma_key_lt_transitive(ek, str_key(old_out[p]@.0), str_key(old_out[q]@.0));
                }
                lemma_key_lt_irreflexive_at(ek);
            }
        }
    }
}

/// After an insertion, every kept entry is the last of its key in the input.
proof fn lemma_insert_cover_out(
    pre: Seq<MetadataEntry>,
    post: Seq<MetadataEntry>,
    old_out: Seq<MetadataEntry>,
    out: Seq<MetadataEntry>,
    p: int,
    x: MetadataEntry,
)
    requires
        insert_step(pre, post, old_out, out, p, x),
        last_per_key(old_out, pre),
        forall|j: int| 0 <= j < pre.len() ==> (#[trigger] pre[j])@.0 != post.last()@.0,
    ensures
        forall|a: int| 0 <= a < out.len() ==> #[trigger] has_source(out, post, a),
{
    reveal(last_per_key);
    let i = pre.len() as int;
    assert(post[i] == post.last());
    assert forall|j: int| 0 <= j < pre.len() implies post[j] == pre[j] by {
        assert(post.drop_last()[j] == post[j]);
    }
    assert forall|a: int| 0 <= a < out.len() implies #[trigger] has_source(out, post, a) by {
        if a == p {
            assert(post[i]@ == out[a]@);
            lemma_last_of_key_end(post);
            assert(kept_from(out[a], post, i));
        } else {
            let a0 = if a < p { a } else { a - 1 };
            assert(out[a] == old_out[a0]);
            assert(has_source(old_out, pre, a0));
            let j = choose|j: int| kept_from(old_out[a0], pre, j);
            assert(post[j]@ == out[a]@);
            lemma_last_of_key_extend(pre, post, j);
            assert(kept_from(out[a], post, j));
        }
    }
}

/// After an insertion, every key of the input is kept.
proof fn lemma_insert_cover_in(
    pre: Seq<MetadataEntry>,
    post: Seq<MetadataEntry>,
    old_out: Seq<MetadataEntry>,
    out: Seq<MetadataEntry>,
    p: int,
    x: MetadataEntry,
)
    requires
        insert_step(pre, post, old_out, out, p, x),
        last_per_key(old_out, pre),
    ensures
        forall|j: int| 0 <= j < post.len() ==> #[trigger] has_key(out, post, j),
{
    reveal(last_per_key);
    let i = pre.len() as int;
    assert(post[i] == post.last());
    assert forall|j: int| 0 <= j < post.len() implies #[trigger] has_key(out, post, j) by {
        if j == i {
            assert(key_at(out, p, post[j]@.0));
        } else {
            assert(post.drop_last()[j] == post[j]);
            assert(post[j] == pre[j]);
            assert(has_key(old_out, pre, j));
            let a = choose|a: int| key_at(old_out, a, pre[j]@.0);
            if a < p {
                assert(out[a] == old_out[a]);
                assert(key_at(out, a, post[j]@.0));
            } else {
                assert(out[a + 1] == old_out[a]);
                assert(key_at(out, a + 1, post[j]@.0));
            }
        }
    }
}

/// Insertion of a new key keeps `last_per_key` and freedom from conflicts.
proof fn lemma_insert_step(
    pre: Seq<MetadataEntry>,
    post: Seq<MetadataEntry>,
    old_out: Seq<MetadataEntry>,
    out: Seq<MetadataEntry>,
    p: int,
    x: MetadataEntry,
)
    requires
        insert_step(pre, post, old_out, out, p, x),
        last_per_key(old_out, pre),
    ensures
        last_per_key(out, post),
        conflict_free(pre) ==> conflict_free(post),
{
    reveal(last_per_key);
    lemma_insert_sorted(pre, post, old_out, out, p, x);
    let i = pre.len() as int;
    assert forall|j: int| 0 <= j < pre.len() implies (#[trigger] pre[j])@.0 != post.last()@.0 by {
        assert(has_key(old_out, pre, j));
        let a = choose|a: int| key_at(old_out, a, pre[j]@.0);
    }
    lemma_insert_cover_out(pre, post, old_out, out, p, x);
    lemma_insert_cover_in(pre, post, old_out, out, p, x);
    if conflict_free(pre) {
        reveal(conflict_free);
        assert(post[i] == post.last());
        assert forall|a: int, b: int| 0 <= a < post.len() && 0 <= b < post.len() && (#[trigger] post[a])@.0 == (#[trigger] post[b])@.0 implies post[a]@.1 == post[b]@.1 by {
            if a < i {
                assert(post.drop_last()[a] == post[a]);
            }
            if b < i {
                assert(post.drop_last()[b] == post[b]);
            }
            if a < i && b < i {
                assert(pre[a]@.0 == pre[b]@.0);
            }
        }
    }
}

/// Merge entries by key in the given order: a later entry replaces an earlier
/// one with the same key. With `refuse_conflicts`, two entries that give one
/// key different values are refused instead, and the key is returned.
#[verifier::rlimit(80)]
pub fn merge_entries(entries: Vec<MetadataEntry>, refuse_conflicts: bool) -> (r: Result<
    Vec<MetadataEntry>,
    String,
>)
    ensures
        match r {
            Ok(m) => last_per_key(m@, entries@) && (refuse_conflicts ==> conflict_free(entries@)),
            Err(key) => refuse_conflicts && conflict_at(entries@, key@),
        },
{
    let mut out: Vec<MetadataEntry> = Vec::new();
    let mut ks: Vec<Vec<u32>> = Vec::new();
    let n = entries.len();
    proof {
        reveal(last_per_key);
        reveal(conflict_free);
        assert(entries@.take(0) =~= Seq::<MetadataEntry>::empty());
    }
    let mut i: usize = 0;
    while i < n
        invariant
            n == entries@.len(),
            i <= n,
            ks@.len() == out@.len(),
            forall|q: int| 0 <= q < out@.len() ==> (#[trigger] ks@[q])@ == str_key(out@[q]@.0),
            last_per_key(out@, entries@.take(i as int)),
            refuse_conflicts ==> conflict_free(entries@.take(i as int)),
        decreases n - i,
    {
        let ghost pre = entries@.take(i as int);
        let ghost post = entries@.take(i + 1);
        assert(post.drop_last() =~= pre);
        let e = entries[i].clone();
        assert(post.last()@ == e@);
        let ek = entry_key(&e);
        let (p, same) = locate(&ks, &ek);
        let ghost old_out = out@;
        if same {
            proof {
                lemma_str_key_injective(old_out[p as int]@.0, e@.0);
            }
            if refuse_conflicts && !str_eq(out[p].value(), e.value()) {
                let key = string_of(e.key());
                proof {
                    reveal(last_per_key);
                    assert(has_source(old_out, pre, p as int));
                    let j = choose|j: int| kept_from(old_out[p as int], pre, j);
                    assert(entries@[j] == pre[j]);
                    assert(entries@[i as int] == post.last());
                }
                return Err(key);
            }
            let ghost x = e;
            out.set(p, e);
            proof {
                lemma_replace_step(pre, post, old_out, out@, p as int, x);
            }
        } else {
            let ghost x = e;
            proof {
                assert forall|q: int| 0 <= q < p implies key_lt(str_key((#[trigger] old_out[q])@.0), str_key(post.last()@.0)) by {
                    assert(ks@[q]@ == str_key(old_out[q]@.0));
                }
            }
            out.insert(p, e);
            ks.insert(p, ek);
            proof {
                lemma_insert_step(pre, post, old_out, out@, p as int, x);
                assert forall|q: int| 0 <= q < out@.len() implies (#[trigger] ks@[q])@ == str_key(out@[q]@.0) by {
                    if q < p {
                        assert(out@[q] == old_out[q]);
                    } else if q > p {
                        assert(out@[q] == old_out[q - 1]);
                    }
                }
            }
        }
        i = i + 1;
    }
    assert(entries@.take(n as int) =~= entries@);
    Ok(out)
}

/// Merging keeps exactly the keys of the input.
pub proof fn lemma_last_per_key_present(r: Seq<MetadataEntry>, s: Seq<MetadataEntry>, k: Seq<char>)
    requires
        last_per_key(r, s),
    ensures
        present(r, k) <==> present(s, k),
{
    reveal(last_per_key);
    if present(r, k) {
        let i = choose|i: int| key_at(r, i, k);
        assert(has_source(r, s, i));
        let j = choose|j: int| kept_from(r[i], s, j);
        assert(key_at(s, j, k));
    }
    if present(s, k) {
        let j = choose|j: int| key_at(s, j, k);
        assert(has_key(r, s, j));
        let i = choose|i: int| key_at(r, i, s[j]@.0);
        assert(key_at(r, i, k));
    }
}

/// Whether `r` holds the last entry per key of `s` depends only on the
/// contents of the entries of `s`.
pub proof fn lemma_last_per_key_views(r: Seq<MetadataEntry>, a: Seq<MetadataEntry>, b: Seq<MetadataEntry>)
    requires
        last_per_key(r, a),
        crate::order::views(a) == crate::order::views(b),
    ensures
        last_per_key(r, b),
{
    reveal(last_per_key);
    reveal(last_of_key);
    assert(a.len() == crate::order::views(a).len());
    assert(b.len() == crate::order::views(b).len());
    assert forall|q: int| 0 <= q < a.len() implies (#[trigger] a[q])@ == b[q]@ by {
        assert(crate::order::views(a)[q] == a[q]@);
        assert(crate::order::views(b)[q] == b[q]@);
    }
    assert forall|i: int| 0 <= i < r.len() implies #[trigger] has_source(r, b, i) by {
        assert(has_source(r, a, i));
        let j = choose|j: int| kept_from(r[i], a, j);
        assert(a[j]@ == b[j]@);
        assert forall|q: int| j < q < b.len() implies (#[trigger] b[q])@.0 != b[j]@.0 by {
            assert(a[q]@ == b[q]@);
        }
        assert(last_of_key(b, j));
        assert(kept_from(r[i], b, j));
    }
    assert forall|j: int| 0 <= j < b.len() implies #[trigger] has_key(r, b, j) by {
        assert(has_key(r, a, j));
        let i = choose|i: int| key_at(r, i, a[j]@.0);
        assert(key_at(r, i, b[j]@.0));
    }
}

/// The value of the last entry of `s` with key `k`.
pub open spec fn last_value(s: Seq<MetadataEntry>, k: Seq<char>) -> Option<Seq<char>>
    decreases s.len(),
{
    if s.len() == 0 {
        None
    } else if s.last()@.0 == k {
        Some(s.last()@.1)
    } else {
        last_value(s.drop_last(), k)
    }
}

/// An entry that is the last of its key holds the last value of that key.
pub proof fn lemma_last_value_at(s: Seq<MetadataEntry>, j: int)
    requires
        0 <= j < s.len(),
        last_of_key(s, j),
    ensures
        last_value(s, s[j]@.0) == Some(s[j]@.1),
    decreases s.len(),
{
    reveal(last_of_key);
    if j < s.len() - 1 {
        let t = s.drop_last();
        assert(s.last() == s[s.len() - 1]);
        assert forall|q: int| j < q < t.len() implies (#[trigger] t[q])@.0 != t[j]@.0 by {
            assert(t[q] == s[q]);
        }
        assert(last_of_key(t, j));
        lemma_last_value_at(t, j);
    }
}

/// A key with a last value has an entry that is the last of that key.
pub proof fn lemma_last_value_witness(s: Seq<MetadataEntry>, k: Seq<char>)
    requires
        last_value(s, k) is Some,
    ensures
        exists|j: int| 0 <= j < s.len() && (#[trigger] s[j])@ == (k, last_value(s, k)->0) && last_of_key(s, j),
    decreases s.len(),
{
    reveal(last_of_key);
    let n = s.len() - 1;
    if s.last()@.0 == k {
        assert(s[n] == s.last());
        assert(last_of_key(s, n));
    } else {
        let t = s.drop_last();
        lemma_last_value_witness(t, k);
        let j = choose|j: int| 0 <= j < t.len() && (#[trigger] t[j])@ == (k, last_value(t, k)->0) && last_of_key(t, j);
        assert(t[j] == s[j]);
        assert forall|q: int| j < q < s.len() implies (#[trigger] s[q])@.0 != s[j]@.0 by {
            if q < n {
                assert(t[q] == s[q]);
            } else {
                assert(s[q] == s.last());
            }
        }
        assert(last_of_key(s, j));
    }
}

/// Keeping only some entries, among them every entry with key `k`, keeps the
/// last value of `k`.
pub proof fn lemma_filter_last_value(s: Seq<MetadataEntry>, keep: spec_fn(MetadataEntry) -> bool, k: Seq<char>)
    requires
        forall|e: MetadataEntry| e@.0 == k ==> #[trigger] keep(e),
    ensures
        last_value(s.filter(keep), k) == last_value(s, k),
    decreases s.len(),
{
    reveal(Seq::filter);
    if s.len() > 0 {
        let sub = s.drop_last().filter(keep);
        lemma_filter_last_value(s.drop_last(), keep, k);
        if keep(s.last()) {
            assert(sub.push(s.last()).drop_last() =~= sub);
        }
    }
}

/// The keys of `r`, as ordered.
pub open spec fn entry_keys(r: Seq<MetadataEntry>) -> Seq<Seq<u32>> {
    r.map_values(|e: MetadataEntry| str_key(e@.0))
}

/// Merging is determined by its input: two results that each hold the last
/// entry per key of the same entries hold the same keys and values in the
/// same order.
pub proof fn lemma_last_per_key_unique(r1: Seq<MetadataEntry>, r2: Seq<MetadataEntry>, s: Seq<MetadataEntry>)
    requires
        last_per_key(r1, s),
        last_per_key(r2, s),
    ensures
        views(r1) == views(r2),
{
    let a = entry_keys(r1);
    let b = entry_keys(r2);
    lemma_entry_keys_cover(r1, s);
    lemma_entry_keys_cover(r2, s);
    reveal(last_per_key);
    assert forall|i: int, j: int| 0 <= i < j < a.len() implies key_lt(#[trigger] a[i], #[trigger] a[j]) by {
        assert(a[i] == str_key(r1[i]@.0));
        assert(a[j] == str_key(r1[j]@.0));
    }
    assert forall|i: int, j: int| 0 <= i < j < b.len() implies key_lt(#[trigger] b[i], #[trigger] b[j]) by {
        assert(b[i] == str_key(r2[i]@.0));
        assert(b[j] == str_key(r2[j]@.0));
    }
    assert forall|x: Seq<u32>| #[trigger] a.contains(x) == b.contains(x) by {
        assert(a.contains(x) == (exists|k: Seq<char>| str_key(k) == x && #[trigger] present(s, k)));
        assert(b.contains(x) == (exists|k: Seq<char>| str_key(k) == x && #[trigger] present(s, k)));
    }
    lemma_increasing_keys_determined(a, b);
    assert(r1.len() == a.len() && r2.len() == b.len());
    assert forall|i: int| 0 <= i < r1.len() implies #[trigger] views(r1)[i] == views(r2)[i] by {
        assert(a[i] == str_key(r1[i]@.0));
        assert(b[i] == str_key(r2[i]@.0));
        lemma_str_key_injective(r1[i]@.0, r2[i]@.0);
        lemma_entry_value(r1, s, i);
        lemma_entry_value(r2, s, i);
        assert(views(r1)[i] == r1[i]@);
        assert(views(r2)[i] == r2[i]@);
    }
    assert(views(r1) =~= views(r2));
}

/// A key occurs in the merged entries exactly when some input entry has it.
proof fn lemma_entry_keys_cover(r: Seq<MetadataEntry>, s: Seq<MetadataEntry>)
    requires
        last_per_key(r, s),
    ensures
        entry_keys(r).len() == r.len(),
        forall|x: Seq<u32>| #[trigger] entry_keys(r).contains(x)
            == (exists|k: Seq<char>| str_key(k) == x && #[trigger] present(s, k)),
{
    let a = entry_keys(r);
    assert forall|x: Seq<u32>| #[trigger] a.contains(x)
        == (exists|k: Seq<char>| str_key(k) == x && #[trigger] present(s, k)) by {
        if a.contains(x) {
            let i = choose|i: int| 0 <= i < a.len() && a[i] == x;
            let k = r[i]@.0;
            assert(key_at(r, i, k));
            lemma_last_per_key_present(r, s, k);
            assert(str_key(k) == x && present(s, k));
        }
        if exists|k: Seq<char>| str_key(k) == x && #[trigger] present(s, k) {
            let k = choose|k: Seq<char>| str_key(k) == x && #[trigger] present(s, k);
            lemma_last_per_key_present(r, s, k);
            let i = choose|i: int| #[trigger] key_at(r, i, k);
            assert(a[i] == x);
        }
    }
}

/// Each merged entry holds the last value its key has in the input.
proof fn lemma_entry_value(r: Seq<MetadataEntry>, s: Seq<MetadataEntry>, i: int)
    requires
        last_per_key(r, s),
        0 <= i < r.len(),
    ensures
        last_value(s, r[i]@.0) == Some(r[i]@.1),
{
    reveal(last_per_key);
    assert(has_source(r, s, i));
    let j = choose|j: int| kept_from(r[i], s, j);
    lemma_last_value_at(s, j);
}

/// Copy entries and merge them by key, keeping the last entry given for each key.
pub fn merge_copies(entries: &[MetadataEntry]) -> (r: Vec<MetadataEntry>)
    ensures
        last_per_key(r@, entries@),
{
    let mut copies: Vec<MetadataEntry> = Vec::new();
    let n = entries.len();
    for i in 0..n
        invariant
            n == entries@.len(),
            copies@.len() == i,
            forall|q: int| 0 <= q < i ==> (#[trigger] copies@[q])@ == entries@[q]@,
    {
        copies.push(entries[i].clone());
    }
    assert(crate::order::views(copies@) =~= crate::order::views(entries@));
    let ghost c = copies@;
    match merge_entries(copies, false) {
        Ok(m) => {
            proof {
                lemma_last_per_key_views(m@, c, entries@);
            }
            m
        },
        Err(_) => Vec::new(),
    }
}

/// No key is below itself.
proof fn lemma_key_lt_irreflexive_at(a: Seq<u32>)
    ensures
        !key_lt(a, a),
{
    crate::order::lemma_key_lt_irreflexive(a);
}

} // verus!
