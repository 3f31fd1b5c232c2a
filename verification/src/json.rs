//! JSON documents as plain values, and the field access that reading
//! Kubernetes custom resources needs.

use vstd::prelude::*;
use crate::k8s::opt_chars;
use crate::text::str_eq;

verus! {

/// A JSON value.
#[derive(Debug, PartialEq, Eq)]
pub enum JsonValue {
    /// `null`.
    Null,
    /// `true` or `false`.
    Bool(bool),
    /// A number; `integer` holds its value when it is an integer that fits
    /// in an `i64`.
    Number { integer: Option<i64> },
    /// A string.
    String(String),
    /// An array, in order.
    Array(Vec<JsonValue>),
    /// An object's members, in order, each key once.
    Object(Vec<(String, JsonValue)>),
}

/// The value of the first member named `key`.
pub open spec fn member(entries: Seq<(String, JsonValue)>, key: Seq<char>) -> Option<JsonValue>
    decreases entries.len(),
{
    if entries.len() == 0 {
        None
    } else if entries[0].0@ == key {
        Some(entries[0].1)
    } else {
        member(entries.drop_first(), key)
    }
}

/// The value of field `key` of an object; nothing for other values or when
/// there is no such field.
pub open spec fn field(v: Option<JsonValue>, key: Seq<char>) -> Option<JsonValue> {
    match v {
        Some(JsonValue::Object(entries)) => member(entries@, key),
        _ => None,
    }
}

/// The text of a string value.
pub open spec fn text_of(v: Option<JsonValue>) -> Option<Seq<char>> {
    match v {
        Some(JsonValue::String(s)) => Some(s@),
        _ => None,
    }
}

/// The value of an integer that fits in an `i64`.
pub open spec fn integer_of(v: Option<JsonValue>) -> Option<i64> {
    match v {
        Some(JsonValue::Number { integer }) => integer,
        _ => None,
    }
}

/// The value of a boolean.
pub open spec fn bool_of(v: Option<JsonValue>) -> Option<bool> {
    match v {
        Some(JsonValue::Bool(b)) => Some(b),
        _ => None,
    }
}

/// The items of an array value; nothing for other values.
pub open spec fn array_of(v: Option<JsonValue>) -> Option<Seq<JsonValue>> {
    match v {
        Some(JsonValue::Array(items)) => Some(items@),
        _ => None,
    }
}

/// The items of an array value; none for other values.
pub open spec fn items_of(v: Option<JsonValue>) -> Seq<JsonValue> {
    match v {
        Some(JsonValue::Array(items)) => items@,
        _ => Seq::empty(),
    }
}

/// The texts of the string items, in order; other items are skipped.
pub open spec fn texts_of(items: Seq<JsonValue>) -> Seq<Seq<char>>
    decreases items.len(),
{
    if items.len() == 0 {
        Seq::empty()
    } else {
        texts_of(items.drop_last()) + match text_of(Some(items.last())) {
            Some(t) => seq![t],
            None => Seq::empty(),
        }
    }
}

/// A reference to a value, as the value.
pub open spec fn deref_opt(r: Option<&JsonValue>) -> Option<JsonValue> {
    match r {
        Some(v) => Some(*v),
        None => None,
    }
}

/// Look up field `key` of an object, as [`field`] describes.
pub fn get_field<'a>(v: Option<&'a JsonValue>, key: &str) -> (r: Option<&'a JsonValue>)
    ensures
        deref_opt(r) == field(deref_opt(v), key@),
{
    match v {
        Some(JsonValue::Object(entries)) => {
            let n = entries.len();
            let mut i: usize = 0;
            assert(entries@.skip(0) =~= entries@);
            while i < n
                invariant
                    n == entries@.len(),
                    i <= n,
                    field(deref_opt(v), key@) == member(entries@, key@),
                    member(entries@, key@) == member(entries@.skip(i as int), key@),
                decreases n - i,
            {
                assert(entries@.skip(i as int).drop_first() =~= entries@.skip(i + 1));
                assert(entries@.skip(i as int)[0] == entries@[i as int]);
                if str_eq(entries[i].0.as_str(), key) {
                    let found = &entries[i].1;
                    return Some(found);
                }
                i = i + 1;
            }
            assert(entries@.skip(n as int) =~= Seq::<(String, JsonValue)>::empty());
            None
        },
        _ => None,
    }
}

/// The text of field `key`, when it is a string.
pub fn text_field(v: Option<&JsonValue>, key: &str) -> (r: Option<String>)
    ensures
        opt_chars(r) == text_of(field(deref_opt(v), key@)),
{
    match get_field(v, key) {
        Some(JsonValue::String(s)) => Some(s.clone()),
        _ => None,
    }
}

/// The value of field `key`, when it is an integer that fits in an `i64`.
pub fn integer_field(v: Option<&JsonValue>, key: &str) -> (r: Option<i64>)
    ensures
        r == integer_of(field(deref_opt(v), key@)),
{
    match get_field(v, key) {
        Some(JsonValue::Number { integer }) => *integer,
        _ => None,
    }
}

/// The value of field `key`, when it is a boolean.
pub fn bool_field(v: Option<&JsonValue>, key: &str) -> (r: Option<bool>)
    ensures
        r == bool_of(field(deref_opt(v), key@)),
{
    match get_field(v, key) {
        Some(JsonValue::Bool(b)) => Some(*b),
        _ => None,
    }
}

/// The items of field `key`, or nothing when it is not an array.
pub fn items_field<'a>(v: Option<&'a JsonValue>, key: &str) -> (r: Option<&'a [JsonValue]>)
    ensures
        match r {
            Some(items) => array_of(field(deref_opt(v), key@)) == Some(items@),
            None => array_of(field(deref_opt(v), key@)) is None,
        },
{
    match get_field(v, key) {
        Some(JsonValue::Array(items)) => Some(items.as_slice()),
        _ => None,
    }
}

/// The items of field `key`, when it is an array.
pub fn array_field<'a>(v: Option<&'a JsonValue>, key: &str) -> (r: &'a [JsonValue])
    ensures
        r@ == items_of(field(deref_opt(v), key@)),
{
    match get_field(v, key) {
        Some(JsonValue::Array(items)) => items.as_slice(),
        _ => {
            let empty: &[JsonValue] = &[];
            assert(empty@ =~= Seq::<JsonValue>::empty());
            empty
        },
    }
}

/// The texts of the string items of a list, in order.
pub fn texts_in(items: &[JsonValue]) -> (r: Vec<String>)
    ensures
        crate::order::views(r@) == texts_of(items@),
{
    let mut r: Vec<String> = Vec::new();
    let n = items.len();
    for i in 0..n
        invariant
            n == items@.len(),
            crate::order::views(r@) == texts_of(items@.take(i as int)),
    {
        proof {
            assert(items@.take(i + 1).drop_last() =~= items@.take(i as int));
            assert(items@.take(i + 1).last() == items@[i as int]);
        }
        let ghost before = crate::order::views(r@);
        match &items[i] {
            JsonValue::String(s) => {
                r.push(s.clone());
                assert(crate::order::views(r@) =~= before + seq![s@]);
            },
            _ => {
                assert(crate::order::views(r@) =~= before + Seq::<Seq<char>>::empty());
            },
        }
    }
    assert(items@.take(n as int) =~= items@);
    r
}

} // verus!
