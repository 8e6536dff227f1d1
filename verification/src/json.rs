//! The JSON layer: a mathematical model of parsed JSON documents, and the
//! trusted bridge to serde_json that reads them.
//!
//! A parsed document is modelled by the ghost tree `Jv`. Numbers keep
//! their exact decimal token (serde_json is built with its
//! arbitrary-precision representation, which stores the literal text), so
//! the library's own verified parsers give them meaning.

use crate::numeric::{
    parse_dec_milli, parse_int_i64, spec_dec_milli, spec_int_text,
};
use vstd::prelude::*;

verus! {

/// The mathematical shape of a JSON value.
pub ghost enum Jv {
    Null,
    Bool(bool),
    /// A number, as its exact decimal token text.
    Num(Seq<char>),
    Str(Seq<char>),
    Arr(Seq<Jv>),
    Obj(Map<Seq<char>, Jv>),
}

#[verifier::external_type_specification]
#[verifier::external_body]
pub struct ExValue(serde_json::Value);

#[verifier::external_type_specification]
#[verifier::external_body]
pub struct ExJsonError(serde_json::Error);

/// The model of a parsed serde_json value.
pub uninterp spec fn json_model(v: serde_json::Value) -> Jv;

/// What a document parses to, if it is valid JSON.
pub uninterp spec fn json_of(s: Seq<char>) -> Option<Jv>;

/// Relies on serde_json::from_str::<Value>: parses a JSON document.
/// Which documents parse, and to what, is a function of the text alone.
#[verifier::external_body]
pub(crate) fn json_parse(s: &str) -> (r: Result<serde_json::Value, serde_json::Error>)
    ensures
        r is Ok <==> json_of(s@) is Some,
        r matches Ok(v) ==> json_model(v) == json_of(s@).unwrap(),
{
    serde_json::from_str(s)
}

/// Relies on serde_json::Value::get with a string index: looks a field up
/// in an object, and returns nothing on non-objects and absent fields.
#[verifier::external_body]
pub(crate) fn json_get<'a>(v: &'a serde_json::Value, key: &str) -> (r: Option<
    &'a serde_json::Value,
>)
    ensures
        r is Some <==> (json_model(*v) matches Jv::Obj(m) && m.contains_key(key@)),
        r matches Some(f) ==> json_model(*f) == json_model(*v)->Obj_0[key@],
{
    v.get(key)
}

/// Relies on serde_json::Value::is_null: whether the value is JSON null.
#[verifier::external_body]
pub(crate) fn json_is_null(v: &serde_json::Value) -> (r: bool)
    ensures
        r == (json_model(*v) is Null),
{
    v.is_null()
}

/// Relies on serde_json::Value::as_str: the payload of a string value.
#[verifier::external_body]
pub(crate) fn json_str(v: &serde_json::Value) -> (r: Option<String>)
    ensures
        r is Some <==> json_model(*v) is Str,
        r matches Some(s) ==> s@ == json_model(*v)->Str_0,
{
    match v.as_str() {
        Some(s) => Some(s.to_owned()),
        None => None,
    }
}

/// Relies on serde_json::Value::as_number and Number::as_str: the exact
/// decimal token of a number value.
#[verifier::external_body]
pub(crate) fn json_number_text(v: &serde_json::Value) -> (r: Option<String>)
    ensures
        r is Some <==> json_model(*v) is Num,
        r matches Some(t) ==> t@ == json_model(*v)->Num_0,
{
    match v.as_number() {
        Some(n) => Some(n.as_str().to_owned()),
        None => None,
    }
}

/// Relies on serde_json::Value::as_array: the length of an array value.
#[verifier::external_body]
pub(crate) fn json_array_len(v: &serde_json::Value) -> (r: Option<usize>)
    ensures
        r is Some <==> json_model(*v) is Arr,
        r matches Some(n) ==> n == json_model(*v)->Arr_0.len(),
{
    match v.as_array() {
        Some(a) => Some(a.len()),
        None => None,
    }
}

/// Relies on serde_json::Value::as_array and slice::get: one element of
/// an array value.
#[verifier::external_body]
pub(crate) fn json_array_get<'a>(v: &'a serde_json::Value, i: usize) -> (r: Option<
    &'a serde_json::Value,
>)
    ensures
        r is Some <==> (json_model(*v) matches Jv::Arr(a) && i < a.len()),
        r matches Some(e) ==> json_model(*e) == json_model(*v)->Arr_0[i as int],
{
    match v.as_array() {
        Some(a) => a.get(i),
        None => None,
    }
}

/// Field lookup on the model: the field's value when `j` is an object
/// that has it.
pub open spec fn jv_field(j: Jv, key: Seq<char>) -> Option<Jv> {
    match j {
        Jv::Obj(m) => if m.contains_key(key) {
            Some(m[key])
        } else {
            None
        },
        _ => None,
    }
}

/// The payload of a string value in the model.
pub open spec fn jv_str(j: Jv) -> Option<Seq<char>> {
    match j {
        Jv::Str(s) => Some(s),
        _ => None,
    }
}

/// The decimal token of a number value in the model.
pub open spec fn jv_num_text(j: Jv) -> Option<Seq<char>> {
    match j {
        Jv::Num(t) => Some(t),
        _ => None,
    }
}

/// The integer reading of a number value: present exactly when the value
/// is a number with integer text whose magnitude fits `i64`.
pub open spec fn jv_i64(j: Jv) -> Option<int> {
    match jv_num_text(j) {
        Some(t) => match spec_int_text(t) {
            Some(v) => if -(i64::MAX as int) <= v <= i64::MAX as int {
                Some(v)
            } else {
                None
            },
            None => None,
        },
        None => None,
    }
}

/// The milli-unit reading of a number value: present exactly when the
/// value is a number with decimal text whose milli-value fits `i64`.
pub open spec fn jv_milli(j: Jv) -> Option<int> {
    match jv_num_text(j) {
        Some(t) => match spec_dec_milli(t) {
            Some(v) => if -(i64::MAX as int) <= v <= i64::MAX as int {
                Some(v)
            } else {
                None
            },
            None => None,
        },
        None => None,
    }
}

/// Read a JSON value as an integer.
pub(crate) fn get_json_i64(v: &serde_json::Value) -> (r: Option<i64>)
    ensures
        r is Some <==> jv_i64(json_model(*v)) is Some,
        r matches Some(n) ==> n as int == jv_i64(json_model(*v)).unwrap(),
{
    match json_number_text(v) {
        Some(t) => parse_int_i64(t.as_str()),
        None => None,
    }
}

/// Read a JSON value as a milli-unit reading.
pub(crate) fn get_json_milli(v: &serde_json::Value) -> (r: Option<i64>)
    ensures
        r is Some <==> jv_milli(json_model(*v)) is Some,
        r matches Some(n) ==> n as int == jv_milli(json_model(*v)).unwrap(),
{
    match json_number_text(v) {
        Some(t) => parse_dec_milli(t.as_str()),
        None => None,
    }
}

} // verus!
