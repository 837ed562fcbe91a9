//! The JSON document model, and the trusted boundary around `serde_json`.
//!
//! Parsing bytes into a JSON tree is done by `serde_json`; its `Value` is
//! opaque here. `JsonData` is the mathematical model of such a value: numbers
//! appear as their canonical decimal text, objects as maps from key text to
//! member (later duplicates of a key overwrite earlier ones, as `serde_json`
//! does). The uninterpreted functions `jmodel` and `json_parse` name, for a
//! `Value` and for a byte sequence, the model that the parser attaches to
//! them; the wrappers below state how each accessor answers in terms of that
//! model.

use vstd::prelude::*;

use serde_json::Value;

use crate::numtext::spec_u64_digits;
use crate::shop::DecodeError;

verus! {

/// The model of a JSON value.
pub enum JsonData {
    Null,
    Bool(bool),
    /// A number, as its canonical decimal text: plain digits (with a leading
    /// `-` when negative) for integers, a fraction or an exponent otherwise.
    Num(Seq<char>),
    Str(Seq<char>),
    Arr(Seq<JsonData>),
    Obj(Map<Seq<char>, JsonData>),
}

/// What parsing a byte sequence as one JSON document yields.
pub enum ParseOutcome {
    /// One well-formed document, with its model.
    Doc(JsonData),
    /// The bytes are not one well-formed JSON document.
    BadSyntax,
    /// The bytes end before the document is complete.
    EarlyEnd,
}

#[verifier::external_type_specification]
#[verifier::external_body]
pub struct ExValue(Value);

/// The model of a parsed `Value`.
pub uninterp spec fn jmodel(v: Value) -> JsonData;

/// The outcome of parsing a byte sequence as one JSON document.
pub uninterp spec fn json_parse(bytes: Seq<u8>) -> ParseOutcome;

/// Relies on `serde_json::from_slice::<Value>`: it parses the whole slice as
/// one JSON document, and a failure is either malformed input or a premature
/// end of input, told apart by `serde_json::Error::is_eof`.
#[verifier::external_body]
pub(crate) fn parse_document(bytes: &[u8]) -> (r: Result<Value, DecodeError>)
    ensures
        (r is Ok) == (json_parse(bytes@) is Doc),
        r is Ok ==> jmodel(r->Ok_0) == json_parse(bytes@)->Doc_0,
        r is Err ==> ((r->Err_0 == DecodeError::UnexpectedEndOfInput) == (json_parse(bytes@)
            is EarlyEnd)),
        r is Err ==> ((r->Err_0 == DecodeError::SyntaxError) == (json_parse(bytes@) is BadSyntax)),
{
    match serde_json::from_slice::<Value>(bytes) {
        Ok(v) => Ok(v),
        Err(e) => {
            if e.is_eof() {
                Err(DecodeError::UnexpectedEndOfInput)
            } else {
                Err(DecodeError::SyntaxError)
            }
        },
    }
}

/// The JSON type of a value, as its model shows it.
#[derive(Debug, Clone, Copy, PartialEq, Eq, Structural)]
pub enum JsonKind {
    Null,
    Bool,
    Number,
    Text,
    Array,
    Object,
}

/// Relies on the public variants of `serde_json::Value`: reports which
/// variant a value is.
#[verifier::external_body]
pub(crate) fn json_kind(v: &Value) -> (k: JsonKind)
    ensures
        (k == JsonKind::Null) == (jmodel(*v) is Null),
        (k == JsonKind::Bool) == (jmodel(*v) is Bool),
        (k == JsonKind::Number) == (jmodel(*v) is Num),
        (k == JsonKind::Text) == (jmodel(*v) is Str),
        (k == JsonKind::Array) == (jmodel(*v) is Arr),
        (k == JsonKind::Object) == (jmodel(*v) is Obj),
{
    match v {
        Value::Null => JsonKind::Null,
        Value::Bool(_) => JsonKind::Bool,
        Value::Number(_) => JsonKind::Number,
        Value::String(_) => JsonKind::Text,
        Value::Array(_) => JsonKind::Array,
        Value::Object(_) => JsonKind::Object,
    }
}

/// Relies on `serde_json::Value::get` with a string index: it looks the key
/// up when the value is an object, and answers `None` on every other variant.
#[verifier::external_body]
pub(crate) fn obj_get<'a>(v: &'a Value, key: &str) -> (r: Option<&'a Value>)
    ensures
        jmodel(*v) is Obj ==> ((r is Some) == jmodel(*v)->Obj_0.contains_key(key@)),
        jmodel(*v) is Obj && r is Some ==> jmodel(*r->Some_0) == jmodel(*v)->Obj_0[key@],
        !(jmodel(*v) is Obj) ==> r is None,
{
    v.get(key)
}

/// Relies on `serde_json::Value::as_str`: it yields the content of the
/// `String` variant and `None` on every other variant.
#[verifier::external_body]
pub(crate) fn str_value(v: &Value) -> (r: Option<String>)
    ensures
        (r is Some) == (jmodel(*v) is Str),
        r is Some ==> r->Some_0@ == jmodel(*v)->Str_0,
{
    match v.as_str() {
        Some(s) => Some(s.to_owned()),
        None => None,
    }
}

/// Relies on `serde_json`'s `Display` for `Number`: it renders the canonical
/// decimal text that `JsonData::Num` models.
#[verifier::external_body]
pub(crate) fn num_text(v: &Value) -> (r: Option<String>)
    ensures
        (r is Some) == (jmodel(*v) is Num),
        r is Some ==> r->Some_0@ == jmodel(*v)->Num_0,
{
    match v {
        Value::Number(n) => Some(n.to_string()),
        _ => None,
    }
}

/// Relies on `serde_json::Value::as_u64`: a number answers its value exactly
/// when it is a non-negative integer that fits, that is, exactly when its
/// canonical text is a plain digit run whose value fits a `u64`.
#[verifier::external_body]
pub(crate) fn num_u64(v: &Value) -> (r: Option<u64>)
    ensures
        jmodel(*v) is Num ==> r == spec_u64_digits(jmodel(*v)->Num_0),
        !(jmodel(*v) is Num) ==> r is None,
{
    v.as_u64()
}

/// Relies on `serde_json::Value::as_array`: it yields the element vector of
/// the `Array` variant, whose elements model the entries of the array, in
/// order.
#[verifier::external_body]
pub(crate) fn arr_items<'a>(v: &'a Value) -> (r: Option<&'a Vec<Value>>)
    ensures
        (r is Some) == (jmodel(*v) is Arr),
        r is Some ==> r->Some_0@.len() == jmodel(*v)->Arr_0.len(),
        r is Some ==> forall|i: int|
            0 <= i < r->Some_0@.len() ==> jmodel(#[trigger] r->Some_0@[i]) == jmodel(
                *v,
            )->Arr_0[i],
{
    v.as_array()
}

} // verus!
