//! The JSON documents that the exchange sends, as a tree the rest of the
//! library can reason about.
//!
//! Parsing the raw text is delegated to the external serialization
//! collaborator behind two trusted items; everything downstream of the parsed
//! [`Json`] tree — field lookup, positional decoding, the schema mapping — is
//! verified code.
//!
//! Integers are kept exactly: a non-negative number becomes [`Json::UInt`], a
//! negative integer [`Json::Int`], and any other number (a fraction or an
//! integer outside both ranges) keeps its textual form in [`Json::NumLit`].

use vstd::prelude::*;

use crate::error::DecodeError;
use crate::error::DecodeKind;

verus! {

/// Mathematical model of a JSON document.
pub enum JVal {
    Null,
    Bool(bool),
    UInt(u64),
    Int(i64),
    NumLit(Seq<char>),
    Str(Seq<char>),
    Arr(Seq<JVal>),
    Obj(Seq<(Seq<char>, JVal)>),
}

/// A decoded JSON document.
#[derive(Debug, PartialEq)]
pub enum Json {
    Null,
    Bool(bool),
    UInt(u64),
    Int(i64),
    NumLit(String),
    Str(String),
    Arr(Vec<Json>),
    Obj(Vec<(String, Json)>),
}

/// The model of a JSON document value.
pub open spec fn json_view(j: Json) -> JVal
    decreases j,
{
    match j {
        Json::Null => JVal::Null,
        Json::Bool(b) => JVal::Bool(b),
        Json::UInt(n) => JVal::UInt(n),
        Json::Int(n) => JVal::Int(n),
        Json::NumLit(s) => JVal::NumLit(s@),
        Json::Str(s) => JVal::Str(s@),
        Json::Arr(items) => JVal::Arr(json_views(items@)),
        Json::Obj(fields) => JVal::Obj(json_field_views(fields@)),
    }
}

/// The models of an array's items.
pub open spec fn json_views(items: Seq<Json>) -> Seq<JVal>
    decreases items,
{
    if items.len() == 0 {
        Seq::empty()
    } else {
        json_views(items.drop_last()).push(json_view(items.last()))
    }
}

/// The models of an object's fields.
pub open spec fn json_field_views(fields: Seq<(String, Json)>) -> Seq<(Seq<char>, JVal)>
    decreases fields,
{
    if fields.len() == 0 {
        Seq::empty()
    } else {
        json_field_views(fields.drop_last()).push(
            (fields.last().0@, json_view(fields.last().1)),
        )
    }
}

/// An array's model has one entry per item.
pub broadcast proof fn lemma_json_views_len(items: Seq<Json>)
    ensures
        (#[trigger] json_views(items)).len() == items.len(),
    decreases items,
{
    if items.len() > 0 {
        lemma_json_views_len(items.drop_last());
    }
}

/// An array's model is the item-wise model.
pub broadcast proof fn lemma_json_views_index(items: Seq<Json>, i: int)
    requires
        0 <= i < items.len(),
    ensures
        #[trigger] json_views(items)[i] == json_view(items[i]),
    decreases items,
{
    lemma_json_views_len(items);
    if items.len() > 0 && i < items.len() - 1 {
        lemma_json_views_index(items.drop_last(), i);
    }
}

/// An object's model has one entry per field.
pub broadcast proof fn lemma_json_field_views_len(fields: Seq<(String, Json)>)
    ensures
        (#[trigger] json_field_views(fields)).len() == fields.len(),
    decreases fields,
{
    if fields.len() > 0 {
        lemma_json_field_views_len(fields.drop_last());
    }
}

/// An object's model is the field-wise model.
pub broadcast proof fn lemma_json_field_views_index(fields: Seq<(String, Json)>, i: int)
    requires
        0 <= i < fields.len(),
    ensures
        #[trigger] json_field_views(fields)[i] == (fields[i].0@, json_view(fields[i].1)),
    decreases fields,
{
    lemma_json_field_views_len(fields);
    if fields.len() > 0 && i < fields.len() - 1 {
        lemma_json_field_views_index(fields.drop_last(), i);
    }
}

impl DeepView for Json {
    type V = JVal;

    open spec fn deep_view(&self) -> JVal {
        json_view(*self)
    }
}

/// The two ways to take an array's model agree.
pub broadcast proof fn lemma_json_views_deep(items: Vec<Json>)
    ensures
        #[trigger] items.deep_view() =~= json_views(items@),
{
    broadcast use lemma_json_views_len, lemma_json_views_index;

}

/// The two ways to take an object's model agree.
pub broadcast proof fn lemma_json_field_views_deep(fields: Vec<(String, Json)>)
    ensures
        #[trigger] fields.deep_view() =~= json_field_views(fields@),
{
    broadcast use lemma_json_field_views_len, lemma_json_field_views_index;

}

/// The value under a key, scanning the fields in order from position `i`.
pub open spec fn jlookup_at(fields: Seq<(Seq<char>, JVal)>, key: Seq<char>, i: int) -> Option<
    JVal,
>
    decreases fields.len() - i,
{
    if i < 0 || i >= fields.len() {
        None
    } else if fields[i].0 == key {
        Some(fields[i].1)
    } else {
        jlookup_at(fields, key, i + 1)
    }
}

/// The value under a key of an object, if the key is present.
pub open spec fn jlookup(fields: Seq<(Seq<char>, JVal)>, key: Seq<char>) -> Option<JVal> {
    jlookup_at(fields, key, 0)
}

/// Scans an object's fields for a key.
pub fn obj_get<'a>(fields: &'a Vec<(String, Json)>, key: &str) -> (r: Option<&'a Json>)
    ensures
        match r {
            Some(j) => jlookup(fields.deep_view(), key@) == Some(j.deep_view()),
            None => jlookup(fields.deep_view(), key@) is None,
        },
{
    let n = fields.len();
    let mut i: usize = 0;
    while i < n
        invariant
            0 <= i <= n,
            n == fields@.len(),
            jlookup(fields.deep_view(), key@) == jlookup_at(fields.deep_view(), key@, i as int),
        decreases n - i,
    {
        if crate::text::str_eq(fields[i].0.as_str(), key) {
            return Some(&fields[i].1);
        }
        i += 1;
    }
    None
}

/// What the external JSON parser yields on a given text, if it accepts it.
/// With the collaborator in use, object fields come sorted by key and a
/// duplicated key keeps its last value, so the result is a function of the
/// text alone.
pub uninterp spec fn json_of(s: Seq<char>) -> Option<JVal>;

#[verifier::external_type_specification]
#[verifier::external_body]
pub struct ExValue(serde_json::Value);

/// Relies on the shape of serde_json::Value: each variant is moved into the
/// corresponding [`Json`] variant; a number is taken through as_u64, then
/// as_i64, else it keeps its textual form.
#[verifier::external_body]
fn json_from_value(v: serde_json::Value) -> Json {
    match v {
        serde_json::Value::Null => Json::Null,
        serde_json::Value::Bool(b) => Json::Bool(b),
        serde_json::Value::Number(n) => match (n.as_u64(), n.as_i64()) {
            (Some(u), _) => Json::UInt(u),
            (None, Some(i)) => Json::Int(i),
            (None, None) => Json::NumLit(n.to_string()),
        },
        serde_json::Value::String(s) => Json::Str(s),
        serde_json::Value::Array(a) => Json::Arr(a.into_iter().map(json_from_value).collect()),
        serde_json::Value::Object(o) => Json::Obj(
            o.into_iter().map(|(k, val)| (k, json_from_value(val))).collect(),
        ),
    }
}

/// Relies on serde_json::from_str::<serde_json::Value>: whether the text
/// parses, and what it parses to, depend on the text alone.
#[verifier::external_body]
fn parse_json_text(s: &str) -> (r: Result<Json, String>)
    ensures
        r matches Ok(v) ==> json_of(s@) == Some(v.deep_view()),
        r is Err ==> json_of(s@) is None,
{
    match serde_json::from_str::<serde_json::Value>(s) {
        Ok(v) => Ok(json_from_value(v)),
        Err(e) => Err(e.to_string()),
    }
}

/// Parses a response body into a JSON tree; a text the parser rejects
/// becomes a syntax error with the parser's message.
pub fn parse_json(s: &str) -> (r: Result<Json, DecodeError>)
    ensures
        r matches Ok(v) ==> json_of(s@) == Some(v.deep_view()),
        r matches Err(e) ==> json_of(s@) is None && e.kind is Syntax && e.path@.len() == 0,
{
    match parse_json_text(s) {
        Ok(v) => Ok(v),
        Err(msg) => Err(DecodeError::at_root(DecodeKind::Syntax(msg))),
    }
}

} // verus!
