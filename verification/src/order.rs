//! Deterministic ordering of domain values.
//!
//! Every ordered value maps to a key: a sequence of integers built so that the
//! lexicographic order of keys is field-by-field order of the value, strings
//! compared character by character with a shorter prefix first. Collections are
//! kept sorted by key with repeated keys removed.

use vstd::prelude::*;
use crate::text::chars_of;

verus! {

/// Strict lexicographic order on keys; a proper prefix comes first.
#[verifier::opaque]
pub open spec fn key_lt(a: Seq<u32>, b: Seq<u32>) -> bool
    decreases a.len(),
{
    if a.len() == 0 {
        b.len() > 0
    } else if b.len() == 0 {
        false
    } else if a[0] < b[0] {
        true
    } else if a[0] > b[0] {
        false
    } else {
        key_lt(a.drop_first(), b.drop_first())
    }
}

/// No key is below itself.
pub proof fn lemma_key_lt_irreflexive(a: Seq<u32>)
    ensures
        !key_lt(a, a),
    decreases a.len(),
{
    reveal(key_lt);
    if a.len() > 0 {
        lemma_key_lt_irreflexive(a.drop_first());
    }
}

/// The key order is transitive.
pub proof fn lemma_key_lt_transitive(a: Seq<u32>, b: Seq<u32>, c: Seq<u32>)
    requires
        key_lt(a, b),
        key_lt(b, c),
    ensures
        key_lt(a, c),
    decreases a.len(),
{
    reveal(key_lt);
    if a.len() > 0 && b.len() > 0 && c.len() > 0 {
        if a[0] == b[0] && b[0] == c[0] {
            lemma_key_lt_transitive(a.drop_first(), b.drop_first(), c.drop_first());
        }
    }
}

/// Two different keys are ordered one way or the other, never both.
pub proof fn lemma_key_lt_total(a: Seq<u32>, b: Seq<u32>)
    ensures
        a == b || key_lt(a, b) || key_lt(b, a),
        !(key_lt(a, b) && key_lt(b, a)),
    decreases a.len(),
{
    reveal(key_lt);
    if a.len() > 0 && b.len() > 0 {
        lemma_key_lt_total(a.drop_first(), b.drop_first());
        if a[0] == b[0] && a.drop_first() == b.drop_first() {
            assert(a =~= seq![a[0]] + a.drop_first());
            assert(b =~= seq![b[0]] + b.drop_first());
        }
    } else if a.len() == 0 && b.len() == 0 {
        assert(a =~= b);
    }
}

/// Compare two keys: negative, zero, or positive as `a` is below, equal to, or above `b`.
pub fn key_order(a: &[u32], b: &[u32]) -> (r: i8)
    ensures
        r < 0 <==> key_lt(a@, b@),
        r == 0 <==> a@ == b@,
        r > 0 <==> key_lt(b@, a@),
{
    proof {
        reveal(key_lt);
        lemma_key_lt_total(a@, b@);
        assert(a@.skip(0) =~= a@);
        assert(b@.skip(0) =~= b@);
    }
    let mut i: usize = 0;
    while i < a.len() && i < b.len()
        invariant
            0 <= i <= a@.len(),
            i <= b@.len(),
            a@.take(i as int) == b@.take(i as int),
            key_lt(a@, b@) == key_lt(a@.skip(i as int), b@.skip(i as int)),
            key_lt(b@, a@) == key_lt(b@.skip(i as int), a@.skip(i as int)),
        decreases a@.len() - i,
    {
        proof {
            reveal(key_lt);
            assert(a@.skip(i as int)[0] == a@[i as int]);
            assert(b@.skip(i as int)[0] == b@[i as int]);
            assert(a@.skip(i as int).drop_first() =~= a@.skip(i + 1));
            assert(b@.skip(i as int).drop_first() =~= b@.skip(i + 1));
        }
        if a[i] < b[i] {
            return -1;
        }
        if a[i] > b[i] {
            return 1;
        }
        proof {
            assert(a@.take(i + 1) =~= a@.take(i as int).push(a@[i as int]));
            assert(b@.take(i + 1) =~= b@.take(i as int).push(b@[i as int]));
        }
        i = i + 1;
    }
    if a.len() == b.len() {
        assert(a@ =~= a@.take(i as int));
        assert(b@ =~= b@.take(i as int));
        0
    } else if a.len() < b.len() {
        -1
    } else {
        1
    }
}

/// Key of a string: each character shifted up by one, then a zero terminator,
/// so that a proper prefix sorts first and fields never run together.
#[verifier::opaque]
pub open spec fn str_key(s: Seq<char>) -> Seq<u32> {
    Seq::new(s.len(), |i: int| (s[i] as u32 + 1) as u32).push(0)
}

/// A string key ends at its first zero, so a key followed by anything
/// determines both the string and what follows.
pub proof fn lemma_str_key_prefix_free(a: Seq<char>, x: Seq<u32>, b: Seq<char>, y: Seq<u32>)
    requires
        str_key(a) + x == str_key(b) + y,
    ensures
        a == b,
        x == y,
{
    reveal(str_key);
    let ka = str_key(a) + x;
    let kb = str_key(b) + y;
    if a.len() < b.len() {
        assert(ka[a.len() as int] == 0u32);
        vstd::utf8::char_is_scalar(b[a.len() as int]);
        assert(kb[a.len() as int] == (b[a.len() as int] as u32 + 1) as u32);
        assert(false);
    } else if b.len() < a.len() {
        assert(kb[b.len() as int] == 0u32);
        vstd::utf8::char_is_scalar(a[b.len() as int]);
        assert(ka[b.len() as int] == (a[b.len() as int] as u32 + 1) as u32);
        assert(false);
    } else {
        assert forall|i: int| 0 <= i < a.len() implies a[i] == b[i] by {
            assert(ka[i] == kb[i]);
            vstd::utf8::char_is_scalar(a[i]);
            vstd::utf8::char_is_scalar(b[i]);
            vstd::utf8::char_u32_cast(a[i], a[i] as u32);
            vstd::utf8::char_u32_cast(b[i], b[i] as u32);
        }
        assert(a =~= b);
        assert(str_key(a) == str_key(b));
        assert(ka.len() == str_key(a).len() + x.len());
        assert(kb.len() == str_key(b).len() + y.len());
        assert(ka.len() == kb.len());
        assert(x.len() == y.len());
        assert forall|i: int| 0 <= i < x.len() implies x[i] == y[i] by {
            assert(ka[str_key(a).len() + i] == kb[str_key(b).len() + i]);
        }
        assert(x =~= y);
    }
}

/// Different strings have different keys.
pub proof fn lemma_str_key_injective(a: Seq<char>, b: Seq<char>)
    ensures
        str_key(a) == str_key(b) ==> a == b,
{
    if str_key(a) == str_key(b) {
        assert(str_key(a) + Seq::<u32>::empty() =~= str_key(b) + Seq::<u32>::empty());
        lemma_str_key_prefix_free(a, Seq::empty(), b, Seq::empty());
    }
}

/// Key of a flag.
pub open spec fn bool_key(b: bool) -> Seq<u32> {
    if b {
        seq![1u32]
    } else {
        seq![0u32]
    }
}

/// Append the key of `s` to `k`.
pub fn push_str_key(k: &mut Vec<u32>, s: &str)
    ensures
        final(k)@ == old(k)@ + str_key(s@),
{
    reveal(str_key);
    let v = chars_of(s);
    let ghost start = k@;
    let n = v.len();
    for i in 0..n
        invariant
            n == v@.len(),
            v@ == s@,
            k@ == start + Seq::new(i as nat, |j: int| (v@[j] as u32 + 1) as u32),
    {
        let ch = v[i];
        let c = ch as u32;
        proof {
            vstd::utf8::char_is_scalar(ch);
        }
        k.push(c + 1);
        assert(k@ =~= start + Seq::new((i + 1) as nat, |j: int| (v@[j] as u32 + 1) as u32));
    }
    k.push(0);
    assert(k@ =~= start + str_key(s@));
}

/// Append the key of a flag to `k`.
pub fn push_bool_key(k: &mut Vec<u32>, b: bool)
    ensures
        final(k)@ == old(k)@ + bool_key(b),
{
    if b {
        k.push(1);
    } else {
        k.push(0);
    }
}

/// Append the key of `x` to `k`.
pub fn push_key<T: Keyed>(k: &mut Vec<u32>, x: &T)
    ensures
        final(k)@ == old(k)@ + x.key(),
{
    let mut xk = x.sort_key();
    k.append(&mut xk);
}

/// Append a single tag value to `k`.
pub fn push_tag(k: &mut Vec<u32>, t: u32)
    ensures
        final(k)@ == old(k)@.push(t),
{
    k.push(t);
}

/// Key of an optional value: absent sorts before present.
pub open spec fn opt_key<T: Keyed>(o: Option<T>) -> Seq<u32> {
    match o {
        None => seq![0u32],
        Some(x) => seq![1u32] + x.key(),
    }
}

/// Append the key of an optional value to `k`.
pub fn push_opt_key<T: Keyed>(k: &mut Vec<u32>, o: &Option<T>)
    ensures
        final(k)@ == old(k)@ + opt_key(*o),
{
    match o {
        None => {
            k.push(0);
            assert(k@ =~= old(k)@ + opt_key(*o));
        },
        Some(x) => {
            k.push(1);
            push_key(k, x);
            assert(k@ =~= old(k)@ + opt_key(*o));
        },
    }
}

/// Keys of the entries of `s`, each behind a `1` marker.
pub open spec fn items_key<T: Keyed>(s: Seq<T>) -> Seq<u32>
    decreases s.len(),
{
    if s.len() == 0 {
        Seq::empty()
    } else {
        items_key(s.drop_last()) + seq![1u32] + s.last().key()
    }
}

/// Key of a list: entries in order, then a `0`, so that a proper prefix sorts first.
pub open spec fn list_key<T: Keyed>(s: Seq<T>) -> Seq<u32> {
    items_key(s).push(0)
}

/// Append the key of a list to `k`.
pub fn push_list_key<T: Keyed>(k: &mut Vec<u32>, s: &Vec<T>)
    ensures
        final(k)@ == old(k)@ + list_key(s@),
{
    let ghost start = k@;
    let n = s.len();
    for i in 0..n
        invariant
            n == s@.len(),
            k@ == start + items_key(s@.take(i as int)),
    {
        assert(s@.take(i + 1).drop_last() =~= s@.take(i as int));
        k.push(1);
        push_key(k, &s[i]);
        assert(k@ =~= start + items_key(s@.take(i + 1)));
    }
    k.push(0);
    assert(s@.take(n as int) =~= s@);
    assert(k@ =~= start + list_key(s@));
}

/// The views of the entries of `s`, in order.
pub open spec fn views<T: View>(s: Seq<T>) -> Seq<T::V> {
    s.map_values(|x: T| x@)
}

/// Values ordered by a key.
pub trait Keyed: Sized {
    /// The key that orders this value.
    spec fn key(&self) -> Seq<u32>;

    /// Compute the key of this value.
    fn sort_key(&self) -> (k: Vec<u32>)
        ensures
            k@ == self.key(),
    ;
}

/// Keys strictly increase along `s`, so no two entries share a key.
pub open spec fn strictly_sorted<T: Keyed>(s: Seq<T>) -> bool {
    forall|i: int, j: int| 0 <= i < j < s.len() ==> key_lt(#[trigger] s[i].key(), #[trigger] s[j].key())
}

/// `r` holds, for every entry of `v`, an entry with the same key.
pub open spec fn covers_keys<T: Keyed>(r: Seq<T>, v: Seq<T>) -> bool {
    forall|x: T| #[trigger] v.contains(x) ==> exists|i: int| 0 <= i < r.len() && (#[trigger] r[i]).key() == x.key()
}

/// Every entry of `r` is an entry of `v`.
pub open spec fn drawn_from<T: Keyed>(r: Seq<T>, v: Seq<T>) -> bool {
    forall|i: int| 0 <= i < r.len() ==> v.contains(#[trigger] r[i])
}

/// The entries of `v` in key order with repeated keys removed.
pub open spec fn sorted_unique_of<T: Keyed>(r: Seq<T>, v: Seq<T>) -> bool {
    &&& strictly_sorted(r)
    &&& drawn_from(r, v)
    &&& covers_keys(r, v)
}

/// Sort `v` by key and keep one entry per key.
pub fn sort_unique<T: Keyed>(v: Vec<T>) -> (r: Vec<T>)
    ensures
        sorted_unique_of(r@, v@),
{
    let ghost orig = v@;
    let mut v = v;
    let mut r: Vec<T> = Vec::new();
    let mut rk: Vec<Vec<u32>> = Vec::new();
    while v.len() > 0
        invariant
            v@ == orig.take(v@.len() as int),
            v@.len() <= orig.len(),
            rk@.len() == r@.len(),
            forall|i: int| 0 <= i < r@.len() ==> (#[trigger] rk@[i])@ == r@[i].key(),
            strictly_sorted(r@),
            drawn_from(r@, orig),
            forall|j: int|
                v@.len() <= j < orig.len() ==> exists|i: int|
                    0 <= i < r@.len() && (#[trigger] r@[i]).key() == (#[trigger] orig[j]).key(),
        decreases v@.len(),
    {
        let ghost before_v = v@;
        let x = v.pop().unwrap();
        let ghost xi = v@.len() as int;
        assert(orig[xi] == x);
        let xk = x.sort_key();
        let mut p: usize = 0;
        let mut duplicate = false;
        let mut done = false;
        while p < rk.len() && !done
            invariant
                rk@.len() == r@.len(),
                forall|i: int| 0 <= i < r@.len() ==> (#[trigger] rk@[i])@ == r@[i].key(),
                0 <= p <= rk@.len(),
                forall|i: int| 0 <= i < p ==> key_lt(#[trigger] r@[i].key(), xk@),
                done ==> p < r@.len(),
                done && duplicate ==> r@[p as int].key() == xk@,
                done && !duplicate ==> key_lt(xk@, r@[p as int].key()),
                !done ==> !duplicate,
            decreases 2 * (rk@.len() - p) + (if done { 0int } else { 1int }),
        {
            let o = key_order(&rk[p], &xk);
            if o == 0 {
                duplicate = true;
                done = true;
            } else if o > 0 {
                done = true;
            } else {
                p = p + 1;
            }
        }
        let ghost old_r = r@;
        if duplicate {
            assert(r@[p as int].key() == x.key());
        } else {
            proof {
                if p < r@.len() {
                    assert(key_lt(xk@, r@[p as int].key()));
                }
            }
            r.insert(p, x);
            rk.insert(p, xk);
            proof {
                assert forall|i: int, j: int| 0 <= i < j < r@.len() implies key_lt(
                    #[trigger] r@[i].key(),
                    #[trigger] r@[j].key(),
                ) by {
                    if j < p {
                        assert(r@[i] == old_r[i] && r@[j] == old_r[j]);
                    } else if j == p {
                        assert(r@[i] == old_r[i]);
                    } else if i == p {
                        assert(r@[j] == old_r[j - 1]);
                        if j - 1 > p {
                            lemma_key_lt_transitive(
                                x.key(),
                                old_r[p as int].key(),
                                old_r[j - 1].key(),
                            );
                        }
                    } else if i < p {
                        assert(r@[i] == old_r[i] && r@[j] == old_r[j - 1]);
                    } else {
                        assert(r@[i] == old_r[i - 1] && r@[j] == old_r[j - 1]);
                    }
                }
                assert forall|i: int| 0 <= i < r@.len() implies (#[trigger] rk@[i])@
                    == r@[i].key() by {
                    if i < p {
                        assert(r@[i] == old_r[i]);
                    } else if i > p {
                        assert(r@[i] == old_r[i - 1]);
                    }
                }
                assert forall|i: int| 0 <= i < r@.len() implies orig.contains(#[trigger] r@[i]) by {
                    if i < p {
                        assert(r@[i] == old_r[i]);
                    } else if i > p {
                        assert(r@[i] == old_r[i - 1]);
                    } else {
                        assert(orig[xi] == r@[i]);
                    }
                }
            }
        }
        proof {
            assert(v@ =~= orig.take(v@.len() as int));
            assert forall|j: int| v@.len() <= j < orig.len() implies exists|i: int|
                0 <= i < r@.len() && (#[trigger] r@[i]).key() == (#[trigger] orig[j]).key() by {
                if j == xi {
                    if duplicate {
                        assert(r@[p as int].key() == orig[j].key());
                    } else {
                        assert(r@[p as int] == x);
                    }
                } else {
                    let i0 = choose|i: int|
                        0 <= i < old_r.len() && (#[trigger] old_r[i]).key() == orig[j].key();
                    if duplicate {
                        assert(r@[i0].key() == orig[j].key());
                    } else if i0 < p {
                        assert(r@[i0] == old_r[i0]);
                    } else {
                        assert(r@[i0 + 1] == old_r[i0]);
                    }
                }
            }
        }
    }
    proof {
        assert forall|x: T| #[trigger] orig.contains(x) implies exists|i: int|
            0 <= i < r@.len() && (#[trigger] r@[i]).key() == x.key() by {
            let j = choose|j: int| 0 <= j < orig.len() && orig[j] == x;
            assert(orig[j].key() == x.key());
        }
    }
    r
}

impl Keyed for String {
    open spec fn key(&self) -> Seq<u32> {
        str_key(self@)
    }

    fn sort_key(&self) -> (k: Vec<u32>) {
        let mut k = Vec::new();
        push_str_key(&mut k, self.as_str());
        assert(k@ =~= str_key(self@));
        k
    }
}

/// `r` holds the strings of `v` in character order, each once.
pub open spec fn sorted_unique_strings(r: Seq<String>, v: Seq<Seq<char>>) -> bool {
    &&& strictly_sorted(r)
    &&& forall|i: int| 0 <= i < r.len() ==> v.contains(#[trigger] r[i]@)
    &&& forall|x: Seq<char>| #[trigger] v.contains(x) ==> exists|i: int| 0 <= i < r.len() && (#[trigger] r[i])@ == x
}

/// Sort strings in character order and keep one of each.
pub fn sort_unique_strings(v: Vec<String>) -> (r: Vec<String>)
    ensures
        sorted_unique_strings(r@, views(v@)),
{
    let ghost orig = v@;
    let r = sort_unique(v);
    proof {
        assert forall|i: int| 0 <= i < r@.len() implies views(orig).contains(#[trigger] r@[i]@) by {
            assert(orig.contains(r@[i]));
            let j = choose|j: int| 0 <= j < orig.len() && orig[j] == r@[i];
            assert(views(orig)[j] == r@[i]@);
        }
        assert forall|x: Seq<char>| #[trigger] views(orig).contains(x) implies exists|i: int| 0 <= i < r@.len() && (#[trigger] r@[i])@ == x by {
            let j = choose|j: int| 0 <= j < views(orig).len() && views(orig)[j] == x;
            assert(orig.contains(orig[j]));
            let i = choose|i: int| 0 <= i < r@.len() && (#[trigger] r@[i]).key() == orig[j].key();
            lemma_str_key_injective(r@[i]@, orig[j]@);
        }
    }
    r
}

/// No entry's key comes before the key of an entry ahead of it.
pub open spec fn sorted_by_key<T: Keyed>(s: Seq<T>) -> bool {
    forall|i: int, j: int| 0 <= i < j < s.len() ==> !key_lt(#[trigger] s[j].key(), #[trigger] s[i].key())
}

/// The entries of `s` with key `k`, in order.
pub open spec fn with_key<T: Keyed>(s: Seq<T>, k: Seq<u32>) -> Seq<T> {
    s.filter(|x: T| x.key() == k)
}

/// `r` is `s` sorted by key, entries with equal keys kept in the order they
/// have in `s`.
pub open spec fn stably_sorted_of<T: Keyed>(r: Seq<T>, s: Seq<T>) -> bool {
    &&& sorted_by_key(r)
    &&& forall|k: Seq<u32>| #[trigger] with_key(r, k) == with_key(s, k)
}

/// Appending an entry adds it to the entries of its own key only.
proof fn lemma_with_key_push<T: Keyed>(s: Seq<T>, x: T, k: Seq<u32>)
    ensures
        with_key(s.push(x), k) == (if x.key() == k {
            with_key(s, k).push(x)
        } else {
            with_key(s, k)
        }),
{
    reveal(Seq::filter);
    assert(s.push(x).drop_last() =~= s);
}

/// A sequence without an entry of key `k` has no entries of that key.
proof fn lemma_with_key_none<T: Keyed>(s: Seq<T>, k: Seq<u32>)
    requires
        forall|i: int| 0 <= i < s.len() ==> (#[trigger] s[i]).key() != k,
    ensures
        with_key(s, k) == Seq::<T>::empty(),
    decreases s.len(),
{
    reveal(Seq::filter);
    if s.len() > 0 {
        lemma_with_key_none(s.drop_last(), k);
    }
}

/// Inserting `x` behind every entry whose key is not after its own, before
/// the first whose key is, keeps the sequence sorted and puts `x` behind the
/// entries of its key.
proof fn lemma_insert_by_key<T: Keyed>(s: Seq<T>, x: T, p: int)
    requires
        sorted_by_key(s),
        0 <= p <= s.len(),
        forall|i: int| 0 <= i < p ==> !key_lt(x.key(), (#[trigger] s[i]).key()),
        p < s.len() ==> key_lt(x.key(), s[p].key()),
    ensures
        sorted_by_key(s.insert(p, x)),
        forall|k: Seq<u32>| #[trigger] with_key(s.insert(p, x), k) == with_key(s.push(x), k),
{
    let t = s.insert(p, x);
    s.insert_ensures(p, x);
    assert forall|j: int| p <= j < s.len() implies !key_lt((#[trigger] s[j]).key(), x.key()) && s[j].key() != x.key() by {
        if key_lt(s[j].key(), x.key()) {
            lemma_key_lt_transitive(s[j].key(), x.key(), s[p].key());
            if j == p {
                lemma_key_lt_irreflexive(s[p].key());
            }
        }
        if s[j].key() == x.key() {
            if j == p {
                lemma_key_lt_irreflexive(x.key());
            } else {
                assert(!key_lt(s[j].key(), s[p].key()));
            }
        }
    }
    assert forall|i: int, j: int| 0 <= i < j < t.len() implies !key_lt(#[trigger] t[j].key(), #[trigger] t[i].key()) by {
        if j < p {
            assert(t[i] == s[i] && t[j] == s[j]);
        } else if j == p {
            assert(t[i] == s[i]);
        } else if i == p {
            assert(t[j] == s[j - 1]);
        } else if i < p {
            assert(t[i] == s[i] && t[j] == s[j - 1]);
        } else {
            assert(t[i] == s[i - 1] && t[j] == s[j - 1]);
        }
    }
    let a = s.take(p);
    let b = s.skip(p);
    assert(t =~= a + seq![x] + b);
    assert(s =~= a + b);
    assert(s.push(x) =~= a + b + seq![x]);
    assert forall|k: Seq<u32>| #[trigger] with_key(t, k) == with_key(s.push(x), k) by {
        let f = |q: T| q.key() == k;
        Seq::filter_distributes_over_add(a + seq![x], b, f);
        Seq::filter_distributes_over_add(a, seq![x], f);
        Seq::filter_distributes_over_add(a, b, f);
        Seq::filter_distributes_over_add(a + b, seq![x], f);
        if x.key() == k {
            assert forall|i: int| 0 <= i < b.len() implies (#[trigger] b[i]).key() != k by {
                assert(b[i] == s[p + i]);
            }
            lemma_with_key_none(b, k);
            assert(with_key(a + b, k) =~= with_key(a, k));
            assert(with_key(t, k) =~= with_key(a, k) + with_key(seq![x], k));
            assert(with_key(s.push(x), k) =~= with_key(a, k) + with_key(seq![x], k));
        } else {
            assert(with_key(t, k) =~= with_key(a, k) + with_key(seq![x], k) + with_key(b, k));
            assert(with_key(s.push(x), k) =~= with_key(a, k) + with_key(b, k) + with_key(seq![x], k));
            assert(seq![x] =~= Seq::<T>::empty().push(x));
            lemma_with_key_push(Seq::<T>::empty(), x, k);
            reveal(Seq::filter);
            assert(with_key(seq![x], k) =~= Seq::empty());
        }
    }
}

/// Sort by key, keeping entries with equal keys in their original order.
pub fn stable_sort_by_key<T: Keyed>(v: Vec<T>) -> (r: Vec<T>)
    ensures
        r@.len() == v@.len(),
        stably_sorted_of(r@, v@),
{
    let ghost orig = v@;
    let mut src = v;
    let mut r: Vec<T> = Vec::new();
    let mut rk: Vec<Vec<u32>> = Vec::new();
    while src.len() > 0
        invariant
            orig.len() == r@.len() + src@.len(),
            src@ == orig.skip(r@.len() as int),
            rk@.len() == r@.len(),
            forall|i: int| 0 <= i < rk@.len() ==> (#[trigger] rk@[i])@ == r@[i].key(),
            sorted_by_key(r@),
            forall|k: Seq<u32>| #[trigger] with_key(r@, k) == with_key(orig.take(r@.len() as int), k),
        decreases src@.len(),
    {
        let ghost done: int = r@.len() as int;
        let x = src.remove(0);
        assert(x == orig[done]);
        assert(src@ =~= orig.skip(done + 1));
        let kx = x.sort_key();
        let n = r.len();
        let mut p: usize = 0;
        while p < n && key_order(kx.as_slice(), rk[p].as_slice()) >= 0
            invariant
                n == r@.len(),
                n == rk@.len(),
                forall|i: int| 0 <= i < rk@.len() ==> (#[trigger] rk@[i])@ == r@[i].key(),
                kx@ == x.key(),
                p <= n,
                forall|i: int| 0 <= i < p ==> !key_lt(x.key(), (#[trigger] r@[i]).key()),
            decreases n - p,
        {
            assert(rk@[p as int]@ == r@[p as int].key());
            p = p + 1;
        }
        proof {
            if p < n {
                assert(rk@[p as int]@ == r@[p as int].key());
            }
            lemma_insert_by_key(r@, x, p as int);
            assert(orig.take(done + 1) =~= orig.take(done).push(x));
            assert forall|k: Seq<u32>| #[trigger] with_key(r@.insert(p as int, x), k) == with_key(orig.take(done + 1), k) by {
                lemma_with_key_push(r@, x, k);
                lemma_with_key_push(orig.take(done), x, k);
            }
        }
        let ghost rk_before = rk@;
        let ghost r_before = r@;
        r.insert(p, x);
        rk.insert(p, kx);
        proof {
            r_before.insert_ensures(p as int, x);
            rk_before.insert_ensures(p as int, kx);
            assert forall|i: int| 0 <= i < rk@.len() implies (#[trigger] rk@[i])@ == r@[i].key() by {
                if i < p {
                    assert(rk@[i] == rk_before[i] && r@[i] == r_before[i]);
                } else if i > p {
                    assert(rk@[i] == rk_before[i - 1] && r@[i] == r_before[i - 1]);
                }
            }
        }
    }
    assert(orig.take(orig.len() as int) =~= orig);
    r
}

/// An entry of a given key, when some entry has it.
proof fn lemma_with_key_nonempty<T: Keyed>(s: Seq<T>, k: Seq<u32>)
    requires
        with_key(s, k).len() > 0,
    ensures
        exists|i: int| 0 <= i < s.len() && (#[trigger] s[i]).key() == k,
    decreases s.len(),
{
    reveal(Seq::filter);
    if s.len() > 0 {
        if s.last().key() == k {
            assert(s[s.len() - 1].key() == k);
        } else {
            lemma_with_key_nonempty(s.drop_last(), k);
            let i = choose|i: int| 0 <= i < s.drop_last().len() && (#[trigger] s.drop_last()[i]).key() == k;
            assert(s[i] == s.drop_last()[i]);
        }
    }
}

/// Two sequences sorted by key that hold the same entries of each key, in
/// the same order, are equal.
proof fn lemma_sorted_groups_determine<T: Keyed>(r1: Seq<T>, r2: Seq<T>)
    requires
        sorted_by_key(r1),
        sorted_by_key(r2),
        forall|k: Seq<u32>| #[trigger] with_key(r1, k) == with_key(r2, k),
    ensures
        r1 == r2,
    decreases r1.len() + r2.len(),
{
    if r1.len() == 0 && r2.len() == 0 {
        assert(r1 =~= r2);
    } else if r1.len() == 0 || r2.len() == 0 {
        let (a, b) = if r1.len() == 0 {
            (r2, r1)
        } else {
            (r1, r2)
        };
        let x = a.last();
        assert(a.drop_last().push(x) =~= a);
        lemma_with_key_push(a.drop_last(), x, x.key());
        reveal(Seq::filter);
        assert(with_key(b, x.key()).len() == 0);
        assert(with_key(a, x.key()).len() > 0);
        assert(with_key(r1, x.key()) == with_key(r2, x.key()));
    } else {
        let x1 = r1.last();
        let x2 = r2.last();
        let p1 = r1.drop_last();
        let p2 = r2.drop_last();
        assert(p1.push(x1) =~= r1);
        assert(p2.push(x2) =~= r2);
        lemma_with_key_push(p1, x1, x1.key());
        lemma_with_key_push(p2, x2, x2.key());
        lemma_key_lt_total(x1.key(), x2.key());
        if key_lt(x1.key(), x2.key()) {
            assert(with_key(r1, x2.key()) == with_key(r2, x2.key()));
            lemma_with_key_nonempty(r1, x2.key());
            let i = choose|i: int| 0 <= i < r1.len() && (#[trigger] r1[i]).key() == x2.key();
            if i < r1.len() - 1 {
                assert(!key_lt(r1[r1.len() - 1].key(), r1[i].key()));
            } else {
                lemma_key_lt_irreflexive(x1.key());
            }
        }
        if key_lt(x2.key(), x1.key()) {
            assert(with_key(r1, x1.key()) == with_key(r2, x1.key()));
            lemma_with_key_nonempty(r2, x1.key());
            let i = choose|i: int| 0 <= i < r2.len() && (#[trigger] r2[i]).key() == x1.key();
            if i < r2.len() - 1 {
                assert(!key_lt(r2[r2.len() - 1].key(), r2[i].key()));
            } else {
                lemma_key_lt_irreflexive(x2.key());
            }
        }
        let k = x1.key();
        assert(k == x2.key());
        assert(with_key(r1, k) == with_key(r2, k));
        assert(x1 == with_key(r1, k).last());
        assert(x2 == with_key(r2, k).last());
        assert forall|q: Seq<u32>| #[trigger] with_key(p1, q) == with_key(p2, q) by {
            lemma_with_key_push(p1, x1, q);
            lemma_with_key_push(p2, x2, q);
            assert(with_key(r1, q) == with_key(r2, q));
            if q == k {
                assert(with_key(p1, q) =~= with_key(r1, q).drop_last());
                assert(with_key(p2, q) =~= with_key(r2, q).drop_last());
            }
        }
        assert forall|i: int, j: int| 0 <= i < j < p1.len() implies !key_lt(#[trigger] p1[j].key(), #[trigger] p1[i].key()) by {
            assert(p1[i] == r1[i] && p1[j] == r1[j]);
        }
        assert forall|i: int, j: int| 0 <= i < j < p2.len() implies !key_lt(#[trigger] p2[j].key(), #[trigger] p2[i].key()) by {
            assert(p2[i] == r2[i] && p2[j] == r2[j]);
        }
        lemma_sorted_groups_determine(p1, p2);
    }
}

/// Sorting by key is deterministic: whatever sorts a sequence stably by key
/// gives one and the same result.
pub proof fn lemma_stable_sort_unique<T: Keyed>(r1: Seq<T>, r2: Seq<T>, s: Seq<T>)
    requires
        stably_sorted_of(r1, s),
        stably_sorted_of(r2, s),
    ensures
        r1 == r2,
{
    assert forall|k: Seq<u32>| #[trigger] with_key(r1, k) == with_key(r2, k) by {
        assert(with_key(r1, k) == with_key(s, k));
        assert(with_key(r2, k) == with_key(s, k));
    }
    lemma_sorted_groups_determine(r1, r2);
}

/// Two strictly increasing sequences of keys that hold the same keys are
/// equal.
pub proof fn lemma_increasing_keys_determined(a: Seq<Seq<u32>>, b: Seq<Seq<u32>>)
    requires
        forall|i: int, j: int| 0 <= i < j < a.len() ==> key_lt(#[trigger] a[i], #[trigger] a[j]),
        forall|i: int, j: int| 0 <= i < j < b.len() ==> key_lt(#[trigger] b[i], #[trigger] b[j]),
        forall|x: Seq<u32>| #[trigger] a.contains(x) == b.contains(x),
    ensures
        a == b,
    decreases a.len(),
{
    if a.len() == 0 {
        if b.len() > 0 {
            assert(b.contains(b[0]));
            assert(a.contains(b[0]));
            let i = choose|i: int| 0 <= i < a.len() && a[i] == b[0];
            assert(false);
        }
        assert(a =~= b);
    } else {
        assert(a.contains(a[0]));
        assert(b.contains(a[0]));
        let j = choose|j: int| 0 <= j < b.len() && b[j] == a[0];
        assert(b.contains(b[0]));
        assert(a.contains(b[0]));
        let i = choose|i: int| 0 <= i < a.len() && a[i] == b[0];
        if i > 0 && j > 0 {
            lemma_key_lt_total(a[0], b[0]);
        }
        if i > 0 && j == 0 {
            lemma_key_lt_irreflexive(a[0]);
        }
        if i == 0 && j > 0 {
            lemma_key_lt_irreflexive(b[0]);
        }
        assert(a[0] == b[0]);
        let a1 = a.drop_first();
        let b1 = b.drop_first();
        assert forall|x: Seq<u32>| #[trigger] a1.contains(x) == b1.contains(x) by {
            if a1.contains(x) {
                let k = choose|k: int| 0 <= k < a1.len() && a1[k] == x;
                assert(a[k + 1] == x);
                assert(key_lt(a[0], a[k + 1]));
                lemma_key_lt_irreflexive(x);
                assert(x != b[0]);
                assert(a.contains(x));
                assert(b.contains(x));
                let q = choose|q: int| 0 <= q < b.len() && b[q] == x;
                assert(q > 0);
                assert(b1[q - 1] == x);
            }
            if b1.contains(x) {
                let k = choose|k: int| 0 <= k < b1.len() && b1[k] == x;
                assert(b[k + 1] == x);
                assert(key_lt(b[0], b[k + 1]));
                lemma_key_lt_irreflexive(x);
                assert(x != a[0]);
                assert(b.contains(x));
                assert(a.contains(x));
                let q = choose|q: int| 0 <= q < a.len() && a[q] == x;
                assert(q > 0);
                assert(a1[q - 1] == x);
            }
        }
        assert forall|i: int, j: int| 0 <= i < j < a1.len() implies key_lt(#[trigger] a1[i], #[trigger] a1[j]) by {
            assert(a1[i] == a[i + 1] && a1[j] == a[j + 1]);
        }
        assert forall|i: int, j: int| 0 <= i < j < b1.len() implies key_lt(#[trigger] b1[i], #[trigger] b1[j]) by {
            assert(b1[i] == b[i + 1] && b1[j] == b[j + 1]);
        }
        lemma_increasing_keys_determined(a1, b1);
        assert(a =~= seq![a[0]] + a1);
        assert(b =~= seq![b[0]] + b1);
    }
}

/// A key recorded from one input is recorded from any input holding the
/// same values.
proof fn lemma_key_carried<T: Keyed>(r1: Seq<T>, v1: Seq<T>, r2: Seq<T>, v2: Seq<T>, y: Seq<u32>)
    requires
        drawn_from(r1, v1),
        covers_keys(r2, v2),
        forall|x: T| #[trigger] v1.contains(x) == v2.contains(x),
        keys_of(r1).contains(y),
    ensures
        keys_of(r2).contains(y),
{
    let i = choose|i: int| 0 <= i < keys_of(r1).len() && keys_of(r1)[i] == y;
    assert(keys_of(r1)[i] == r1[i].key());
    assert(v1.contains(r1[i]));
    assert(v2.contains(r1[i]));
    let k = choose|k: int| 0 <= k < r2.len() && (#[trigger] r2[k]).key() == r1[i].key();
    assert(keys_of(r2)[k] == r2[k].key());
}

/// The keys of a sequence, in order.
pub open spec fn keys_of<T: Keyed>(s: Seq<T>) -> Seq<Seq<u32>> {
    s.map_values(|x: T| x.key())
}

/// What a sorted collection records depends only on which values it was
/// given: any two inputs holding the same values, in any order and with any
/// repeats, are recorded with the same keys in the same order.
pub proof fn lemma_sorted_unique_order_determined<T: Keyed>(r1: Seq<T>, v1: Seq<T>, r2: Seq<T>, v2: Seq<T>)
    requires
        sorted_unique_of(r1, v1),
        sorted_unique_of(r2, v2),
        forall|x: T| #[trigger] v1.contains(x) == v2.contains(x),
    ensures
        keys_of(r1) == keys_of(r2),
{
    lemma_keys_increasing(r1);
    lemma_keys_increasing(r2);
    lemma_same_keys(r1, v1, r2, v2);
    lemma_increasing_keys_determined(keys_of(r1), keys_of(r2));
}

/// The keys of a strictly sorted sequence strictly increase.
proof fn lemma_keys_increasing<T: Keyed>(r: Seq<T>)
    requires
        strictly_sorted(r),
    ensures
        forall|i: int, j: int| 0 <= i < j < keys_of(r).len() ==> key_lt(#[trigger] keys_of(r)[i], #[trigger] keys_of(r)[j]),
{
    assert forall|i: int, j: int| 0 <= i < j < keys_of(r).len() implies key_lt(#[trigger] keys_of(r)[i], #[trigger] keys_of(r)[j]) by {
        assert(keys_of(r)[i] == r[i].key() && keys_of(r)[j] == r[j].key());
    }
}

/// Sorted collections of the same values hold the same keys.
proof fn lemma_same_keys<T: Keyed>(r1: Seq<T>, v1: Seq<T>, r2: Seq<T>, v2: Seq<T>)
    requires
        sorted_unique_of(r1, v1),
        sorted_unique_of(r2, v2),
        forall|x: T| #[trigger] v1.contains(x) == v2.contains(x),
    ensures
        forall|y: Seq<u32>| #[trigger] keys_of(r1).contains(y) == keys_of(r2).contains(y),
{
    assert forall|y: Seq<u32>| #[trigger] keys_of(r1).contains(y) implies keys_of(r2).contains(y) by {
        lemma_key_carried(r1, v1, r2, v2, y);
    }
    assert forall|y: Seq<u32>| #[trigger] keys_of(r2).contains(y) implies keys_of(r1).contains(y) by {
        lemma_key_carried(r2, v2, r1, v1, y);
    }
}

} // verus!
