//! A small JSON value model.
//!
//! `JsonValue` is the executable wire value the client hands to and
//! receives from its transport; `Json` is its mathematical shape, used
//! by every contract. Objects keep their fields as an ordered list of
//! pairs, because the client pins the exact order in which fields are
//! emitted on the wire.

use vstd::prelude::*;

verus! {

broadcast use vstd::std_specs::vec::axiom_vec_index_decreases;

/// Mathematical model of a JSON value.
#[verifier::ext_equal]
pub enum Json {
    Null,
    Bool(bool),
    UInt(u64),
    Text(Seq<char>),
    Array(Seq<Json>),
    Object(Seq<JsonField>),
}

/// One named field of a JSON object model.
#[verifier::ext_equal]
pub struct JsonField {
    pub name: Seq<char>,
    pub value: Json,
}

/// Executable JSON value. Numbers are unsigned 64-bit integers: the
/// client never emits any other number shape.
#[derive(Debug, PartialEq, Eq)]
pub enum JsonValue {
    Null,
    Bool(bool),
    UInt(u64),
    Text(String),
    Array(Vec<JsonValue>),
    Object(Vec<(String, JsonValue)>),
}

/// The mathematical shape of an executable JSON value.
pub open spec fn json_of(v: JsonValue) -> Json
    decreases v,
{
    match v {
        JsonValue::Null => Json::Null,
        JsonValue::Bool(b) => Json::Bool(b),
        JsonValue::UInt(n) => Json::UInt(n),
        JsonValue::Text(s) => Json::Text(s@),
        JsonValue::Array(items) => Json::Array(
            Seq::new(
                items@.len(),
                |i: int|
                    if 0 <= i < items@.len() {
                        json_of(items@[i])
                    } else {
                        Json::Null
                    },
            ),
        ),
        JsonValue::Object(fields) => Json::Object(
            Seq::new(
                fields@.len(),
                |i: int|
                    if 0 <= i < fields@.len() {
                        JsonField { name: fields@[i].0@, value: json_of(fields@[i].1) }
                    } else {
                        JsonField { name: Seq::<char>::empty(), value: Json::Null }
                    },
            ),
        ),
    }
}

/// The shapes of a sequence of executable JSON values, elementwise.
pub open spec fn jsons_of(vs: Seq<JsonValue>) -> Seq<Json> {
    Seq::new(
        vs.len(),
        |i: int|
            if 0 <= i < vs.len() {
                json_of(vs[i])
            } else {
                Json::Null
            },
    )
}

/// The value of the first field named `key`, if any.
pub open spec fn lookup_field(fields: Seq<JsonField>, key: Seq<char>) -> Option<Json>
    decreases fields.len(),
{
    if fields.len() == 0 {
        None
    } else if fields[0].name == key {
        Some(fields[0].value)
    } else {
        lookup_field(fields.drop_first(), key)
    }
}

} // verus!
