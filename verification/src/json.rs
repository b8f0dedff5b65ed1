//! The JSON document model the parser reads, and the trusted accessors that
//! read a `serde_json::Value` in terms of that model.

use vstd::prelude::*;

verus! {

/// `serde_json::Value`, the parsed JSON document, held opaquely.
#[verifier::external_type_specification]
#[verifier::external_body]
pub struct ExJsonValue(serde_json::Value);

/// The three kinds of JSON number that serde_json keeps apart: a
/// non-negative integer, a negative integer, and anything else (a float).
#[derive(Clone, Copy, PartialEq, Eq, Structural, Debug)]
pub enum JsonNumber {
    PosInt(u64),
    NegInt(i64),
    Float,
}

/// A JSON document as a mathematical tree. Object members are kept in the
/// order the document's map yields them.
pub enum Json {
    Null,
    Bool(bool),
    Number(JsonNumber),
    Str(Seq<char>),
    Array(Seq<Json>),
    Object(Seq<(Seq<char>, Json)>),
}

/// The top-level shape of a JSON value.
#[derive(Clone, Copy, PartialEq, Eq, Structural, Debug)]
pub enum JsonKind {
    Null,
    Bool,
    Number,
    Str,
    Array,
    Object,
}

pub open spec fn kind_of(j: Json) -> JsonKind {
    match j {
        Json::Null => JsonKind::Null,
        Json::Bool(_) => JsonKind::Bool,
        Json::Number(_) => JsonKind::Number,
        Json::Str(_) => JsonKind::Str,
        Json::Array(_) => JsonKind::Array,
        Json::Object(_) => JsonKind::Object,
    }
}

/// The tree that a `serde_json::Value` holds.
pub uninterp spec fn json_tree(value: serde_json::Value) -> Json;

/// What `serde_json::from_str::<serde_json::Value>` makes of a text: the
/// document, or the text of its error.
pub uninterp spec fn serde_json_parse(text: Seq<char>) -> Result<Json, Seq<char>>;

/// Calls `serde_json::from_str::<serde_json::Value>`. Claims only that the
/// outcome is the named function of the text: the parsed tree, or the
/// error's display text.
#[verifier::external_body]
pub(crate) fn parse_json_text(text: &str) -> (r: Result<serde_json::Value, String>)
    ensures
        match r {
            Ok(v) => serde_json_parse(text@) == Ok::<Json, Seq<char>>(json_tree(v)),
            Err(m) => serde_json_parse(text@) == Err::<Json, Seq<char>>(m@),
        },
{
    match serde_json::from_str::<serde_json::Value>(text) {
        Ok(v) => Ok(v),
        Err(e) => Err(e.to_string()),
    }
}

/// Tells the variants of `serde_json::Value` apart.
#[verifier::external_body]
pub(crate) fn json_kind(v: &serde_json::Value) -> (r: JsonKind)
    ensures
        r == kind_of(json_tree(*v)),
{
    match v {
        serde_json::Value::Null => JsonKind::Null,
        serde_json::Value::Bool(_) => JsonKind::Bool,
        serde_json::Value::Number(_) => JsonKind::Number,
        serde_json::Value::String(_) => JsonKind::Str,
        serde_json::Value::Array(_) => JsonKind::Array,
        serde_json::Value::Object(_) => JsonKind::Object,
    }
}

/// `serde_json::Value::as_bool` on a boolean value.
#[verifier::external_body]
pub(crate) fn json_bool(v: &serde_json::Value) -> (r: bool)
    requires
        json_tree(*v) is Bool,
    ensures
        json_tree(*v) == Json::Bool(r),
{
    v.as_bool().unwrap_or(false)
}

/// Tells serde_json's number representations apart with
/// `as_u64` (non-negative integers) and `as_i64` (negative integers).
#[verifier::external_body]
pub(crate) fn json_number(v: &serde_json::Value) -> (r: JsonNumber)
    requires
        json_tree(*v) is Number,
    ensures
        json_tree(*v) == Json::Number(r),
{
    match (v.as_u64(), v.as_i64()) {
        (Some(n), _) => JsonNumber::PosInt(n),
        (None, Some(i)) => JsonNumber::NegInt(i),
        (None, None) => JsonNumber::Float,
    }
}

/// `serde_json::Value::as_str` on a string value, copied.
#[verifier::external_body]
pub(crate) fn json_string(v: &serde_json::Value) -> (r: String)
    requires
        json_tree(*v) is Str,
    ensures
        json_tree(*v) == Json::Str(r@),
{
    v.as_str().unwrap_or_default().to_string()
}

/// The length of an array value.
#[verifier::external_body]
pub(crate) fn json_array_len(v: &serde_json::Value) -> (r: usize)
    requires
        json_tree(*v) is Array,
    ensures
        r == json_tree(*v)->Array_0.len(),
{
    match v.as_array() {
        Some(a) => a.len(),
        None => 0,
    }
}

/// The `i`-th element of an array value.
#[verifier::external_body]
pub(crate) fn json_array_item<'a>(v: &'a serde_json::Value, i: usize) -> (r: &'a serde_json::Value)
    requires
        json_tree(*v) is Array,
        i < json_tree(*v)->Array_0.len(),
    ensures
        json_tree(*r) == json_tree(*v)->Array_0[i as int],
{
    &v.as_array().unwrap()[i]
}

/// The number of members of an object value.
#[verifier::external_body]
pub(crate) fn json_object_len(v: &serde_json::Value) -> (r: usize)
    requires
        json_tree(*v) is Object,
    ensures
        r == json_tree(*v)->Object_0.len(),
{
    match v.as_object() {
        Some(m) => m.len(),
        None => 0,
    }
}

/// The `i`-th member (key and value) of an object value, in the map's
/// iteration order.
#[verifier::external_body]
pub(crate) fn json_object_entry<'a>(v: &'a serde_json::Value, i: usize) -> (r: (String, &'a serde_json::Value))
    requires
        json_tree(*v) is Object,
        i < json_tree(*v)->Object_0.len(),
    ensures
        r.0@ == json_tree(*v)->Object_0[i as int].0,
        json_tree(*r.1) == json_tree(*v)->Object_0[i as int].1,
{
    let (k, c) = v.as_object().unwrap().iter().nth(i).unwrap();
    (k.clone(), c)
}

/// A copy of a value (`serde_json::Value::clone`).
#[verifier::external_body]
pub(crate) fn json_clone(v: &serde_json::Value) -> (r: serde_json::Value)
    ensures
        json_tree(r) == json_tree(*v),
{
    v.clone()
}

/// The value of the first member named `key`, if any.
pub open spec fn lookup(entries: Seq<(Seq<char>, Json)>, key: Seq<char>) -> Option<Json>
    decreases entries.len(),
{
    if entries.len() == 0 {
        None
    } else if entries[0].0 == key {
        Some(entries[0].1)
    } else {
        lookup(entries.drop_first(), key)
    }
}

/// The member of an object named `key`.
pub open spec fn member(j: Json, key: Seq<char>) -> Option<Json> {
    match j {
        Json::Object(e) => lookup(e, key),
        _ => None,
    }
}

proof fn lemma_lookup_skip(e: Seq<(Seq<char>, Json)>, key: Seq<char>, i: int)
    requires
        0 <= i < e.len(),
    ensures
        lookup(e.skip(i), key) == (if e[i].0 == key { Some(e[i].1) } else { lookup(e.skip(i + 1), key) }),
{
    assert(e.skip(i).drop_first() =~= e.skip(i + 1));
}

/// Finds the member of an object value named `key`.
pub fn object_member<'a>(v: &'a serde_json::Value, key: &str) -> (r: Option<&'a serde_json::Value>)
    requires
        json_tree(*v) is Object,
    ensures
        match r {
            None => member(json_tree(*v), key@) is None,
            Some(c) => member(json_tree(*v), key@) == Some(json_tree(*c)),
        },
{
    let n = json_object_len(v);
    let ghost e = json_tree(*v)->Object_0;
    let mut i: usize = 0;
    assert(e.skip(0) =~= e);
    while i < n
        invariant
            json_tree(*v) is Object,
            e == json_tree(*v)->Object_0,
            n == e.len(),
            i <= n,
            lookup(e, key@) == lookup(e.skip(i as int), key@),
        decreases n - i,
    {
        let (k, c) = json_object_entry(v, i);
        proof { lemma_lookup_skip(e, key@, i as int); }
        if crate::text::str_eq(k.as_str(), key) {
            return Some(c);
        }
        i = i + 1;
    }
    assert(e.skip(n as int).len() == 0);
    None
}

} // verus!
