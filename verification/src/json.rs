//! Decoding the body of a PUT request: one flat JSON object with a string
//! field `key` and a scalar field `value`.
//!
//! Only the parse itself is trusted: the wrapper hands back the raw shape of
//! the text as plain values, and everything the protocol decides about that
//! shape — which value each scalar becomes, and which shapes are errors — is
//! verified code with its meaning stated in [`put_decode`].

use vstd::prelude::*;

use serde_json::from_str;

use crate::store::Value;
use crate::store::ValueModel;
use crate::store::null_model;
use crate::store::null_value;

verus! {

/// The raw shape of a PUT body as serde_json parses it, before the protocol
/// decides anything about it.
pub enum RawPut {
    /// The text is not well-formed JSON.
    NotJson,
    /// Well-formed, but not an object holding both a `key` and a `value`
    /// field.
    NoField,
    /// Both fields are there, but `key` is not a JSON string.
    KeyNotText,
    /// Both fields are there and `key` is the JSON string `key`.
    Fields { key: String, value: RawScalar },
}

/// The raw shape of the `value` field.
pub enum RawScalar {
    /// A JSON string, with its text.
    Text(String),
    /// A number with an integral 64-bit representation.
    Int(i64),
    /// Any other number, as its decimal rendering.
    Decimal(String),
    /// Any other JSON type.
    Other,
}

/// The mathematical shape of a [`RawPut`].
#[verifier::ext_equal]
pub enum RawPutModel {
    NotJson,
    NoField,
    KeyNotText,
    Fields { key: Seq<char>, value: RawScalarModel },
}

/// The mathematical shape of a [`RawScalar`].
#[verifier::ext_equal]
pub enum RawScalarModel {
    Text(Seq<char>),
    Int(i64),
    Decimal(Seq<char>),
    Other,
}

impl View for RawScalar {
    type V = RawScalarModel;

    open spec fn view(&self) -> RawScalarModel {
        match self {
            RawScalar::Text(t) => RawScalarModel::Text(t@),
            RawScalar::Int(i) => RawScalarModel::Int(*i),
            RawScalar::Decimal(d) => RawScalarModel::Decimal(d@),
            RawScalar::Other => RawScalarModel::Other,
        }
    }
}

impl View for RawPut {
    type V = RawPutModel;

    open spec fn view(&self) -> RawPutModel {
        match self {
            RawPut::NotJson => RawPutModel::NotJson,
            RawPut::NoField => RawPutModel::NoField,
            RawPut::KeyNotText => RawPutModel::KeyNotText,
            RawPut::Fields { key, value } => RawPutModel::Fields { key: key@, value: value@ },
        }
    }
}

/// The raw shape of a text as one flat JSON object with fields `key` and
/// `value`: a function of the text alone.
pub uninterp spec fn raw_put_parse(s: Seq<char>) -> RawPutModel;

/// Relies on serde_json: `from_str` parses the text (`NotJson` when it is
/// not well-formed JSON); `Value::get` looks the two fields up (`NoField`
/// when either is absent); `as_str`, `as_i64`, `is_number` and `to_string`
/// tell the scalar's variants apart and move the payload out, one arm per
/// variant, deciding nothing. All of it is a function of the text alone.
#[verifier::external_body]
fn parse_put_object(s: &str) -> (r: RawPut)
    ensures
        r@ == raw_put_parse(s@),
{
    let json: serde_json::Value = match from_str(s) {
        Ok(v) => v, _ => return RawPut::NotJson,
    };
    let (k, v) = match (json.get("key"), json.get("value")) {
        (Some(k), Some(v)) => (k, v), _ => return RawPut::NoField,
    };
    let key = match k.as_str() {
        Some(t) => t.to_string(), _ => return RawPut::KeyNotText,
    };
    let value = if let Some(t) = v.as_str() { RawScalar::Text(t.to_string()) }
        else if let Some(i) = v.as_i64() { RawScalar::Int(i) }
        else if v.is_number() { RawScalar::Decimal(v.to_string()) }
        else { RawScalar::Other };
    RawPut::Fields { key, value }
}

/// What decoding a PUT body yields.
///
/// `Malformed` covers text that is not well-formed JSON and a `key` field
/// that is not a JSON string; `MissingField` covers a well-formed object
/// without both a `key` and a `value` field.
pub enum PutDecode {
    Malformed,
    MissingField,
    Object { key: String, value: Value },
}

/// The mathematical shape of a [`PutDecode`].
#[verifier::ext_equal]
pub enum PutDecodeModel {
    Malformed,
    MissingField,
    Object { key: Seq<char>, value: ValueModel },
}

impl View for PutDecode {
    type V = PutDecodeModel;

    open spec fn view(&self) -> PutDecodeModel {
        match self {
            PutDecode::Malformed => PutDecodeModel::Malformed,
            PutDecode::MissingField => PutDecodeModel::MissingField,
            PutDecode::Object { key, value } => PutDecodeModel::Object {
                key: key@,
                value: value@,
            },
        }
    }
}

/// The stored value a raw scalar becomes: a string is kept as text, an
/// integral number is truncated to 32 bits, any other number keeps its
/// decimal rendering, and any other JSON type becomes the literal text
/// `NULL`.
pub open spec fn scalar_value(v: RawScalarModel) -> ValueModel {
    match v {
        RawScalarModel::Text(t) => ValueModel::Text(t),
        RawScalarModel::Int(i) => ValueModel::Integer(i as i32),
        RawScalarModel::Decimal(d) => ValueModel::Double(d),
        RawScalarModel::Other => null_model(),
    }
}

/// The decode of one flat JSON object with fields `key` and `value`: the raw
/// parse shape, classified. Text that does not parse, and a `key` that is
/// not a JSON string, are `Malformed`; an object without both fields is
/// `MissingField`; otherwise the key with its value under [`scalar_value`].
pub open spec fn put_decode(s: Seq<char>) -> PutDecodeModel {
    match raw_put_parse(s) {
        RawPutModel::NotJson => PutDecodeModel::Malformed,
        RawPutModel::NoField => PutDecodeModel::MissingField,
        RawPutModel::KeyNotText => PutDecodeModel::Malformed,
        RawPutModel::Fields { key, value } => PutDecodeModel::Object {
            key,
            value: scalar_value(value),
        },
    }
}

/// Turn a raw scalar into the value the store keeps.
pub fn scalar_to_value(v: RawScalar) -> (r: Value)
    ensures
        r@ == scalar_value(v@),
{
    match v {
        RawScalar::Text(t) => Value::Text(t),
        RawScalar::Int(i) => Value::Integer(#[verifier::truncate] (i as i32)),
        RawScalar::Decimal(d) => Value::Double(d),
        RawScalar::Other => null_value(),
    }
}

/// Decode a PUT body: parse, then classify the raw shape.
pub fn decode_put_object(s: &str) -> (r: PutDecode)
    ensures
        r@ == put_decode(s@),
{
    match parse_put_object(s) {
        RawPut::NotJson => PutDecode::Malformed,
        RawPut::NoField => PutDecode::MissingField,
        RawPut::KeyNotText => PutDecode::Malformed,
        RawPut::Fields { key, value } => PutDecode::Object {
            key,
            value: scalar_to_value(value),
        },
    }
}

} // verus!
