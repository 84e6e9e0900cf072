//! Response decoding.
//!
//! The client reads only response envelopes: quantities, hex byte
//! strings, the `result` wrapper around each per-transaction trace,
//! and the address-keyed prestate maps. Trace contents themselves stay
//! opaque JSON.

use vstd::prelude::*;
use crate::hex::{parse_hex_bytes, parse_hex_bytes_str, parse_quantity, parse_quantity_str};
use crate::json::{json_of, jsons_of, lookup_field, Json, JsonField, JsonValue};
use crate::types::{Address, H256};

verus! {

/// A chain id response: a hex-quantity string.
pub open spec fn decoded_chain_id(j: Json) -> Option<u64> {
    match j {
        Json::Text(s) => parse_quantity(s),
        _ => None,
    }
}

pub fn decode_chain_id(v: &JsonValue) -> (r: Option<u64>)
    ensures
        r == decoded_chain_id(json_of(*v)),
{
    match v {
        JsonValue::Text(s) => parse_quantity_str(s.as_str()),
        _ => None,
    }
}

/// An address response: a hex string of exactly twenty bytes.
pub open spec fn decoded_address(j: Json) -> Option<Seq<u8>> {
    match j {
        Json::Text(s) => match parse_hex_bytes(s) {
            Some(b) => if b.len() == 20 {
                Some(b)
            } else {
                None
            },
            None => None,
        },
        _ => None,
    }
}

pub fn decode_address(v: &JsonValue) -> (r: Option<Address>)
    ensures
        match r {
            Some(a) => decoded_address(json_of(*v)) == Some(a.0@),
            None => decoded_address(json_of(*v)) is None,
        },
{
    let s = match v {
        JsonValue::Text(s) => s,
        _ => { return None },
    };
    let bytes = match parse_hex_bytes_str(s.as_str()) {
        Some(b) => b,
        None => { return None },
    };
    if bytes.len() != 20 {
        return None;
    }
    let mut out: [u8; 20] = [0u8; 20];
    let mut i: usize = 0;
    while i < 20
        invariant
            i <= 20,
            bytes@.len() == 20,
            out@.len() == 20,
            forall|k: int| 0 <= k < i ==> out@[k] == bytes@[k],
        decreases 20 - i,
    {
        out[i] = bytes[i];
        i = i + 1;
    }
    proof {
        assert(out@ =~= bytes@);
    }
    Some(Address(out))
}

/// A transaction-hash response: a hex string of exactly 32 bytes.
pub open spec fn decoded_hash(j: Json) -> Option<Seq<u8>> {
    match j {
        Json::Text(s) => match parse_hex_bytes(s) {
            Some(b) => if b.len() == 32 {
                Some(b)
            } else {
                None
            },
            None => None,
        },
        _ => None,
    }
}

pub fn decode_hash(v: &JsonValue) -> (r: Option<H256>)
    ensures
        match r {
            Some(h) => decoded_hash(json_of(*v)) == Some(h.0@),
            None => decoded_hash(json_of(*v)) is None,
        },
{
    let s = match v {
        JsonValue::Text(s) => s,
        _ => { return None },
    };
    let bytes = match parse_hex_bytes_str(s.as_str()) {
        Some(b) => b,
        None => { return None },
    };
    if bytes.len() != 32 {
        return None;
    }
    let mut out: [u8; 32] = [0u8; 32];
    let mut i: usize = 0;
    while i < 32
        invariant
            i <= 32,
            bytes@.len() == 32,
            out@.len() == 32,
            forall|k: int| 0 <= k < i ==> out@[k] == bytes@[k],
        decreases 32 - i,
    {
        out[i] = bytes[i];
        i = i + 1;
    }
    proof {
        assert(out@ =~= bytes@);
    }
    Some(H256(out))
}

/// A bytecode response: a hex string of any even digit count.
pub open spec fn decoded_code(j: Json) -> Option<Seq<u8>> {
    match j {
        Json::Text(s) => parse_hex_bytes(s),
        _ => None,
    }
}

pub fn decode_code(v: &JsonValue) -> (r: Option<Vec<u8>>)
    ensures
        match r {
            Some(b) => decoded_code(json_of(*v)) == Some(b@),
            None => decoded_code(json_of(*v)) is None,
        },
{
    match v {
        JsonValue::Text(s) => parse_hex_bytes_str(s.as_str()),
        _ => None,
    }
}

/// Whether a fire-and-forget call's response is the `null` it owes.
pub fn is_null_value(v: &JsonValue) -> (r: bool)
    ensures
        r == (json_of(*v) is Null),
{
    match v {
        JsonValue::Null => true,
        _ => false,
    }
}

/// Whether a structured response (block, transaction, proof) has the
/// object shape its typed decoding needs.
pub fn is_object_value(v: &JsonValue) -> (r: bool)
    ensures
        r == (json_of(*v) is Object),
{
    match v {
        JsonValue::Object(_) => true,
        _ => false,
    }
}

/// The inner trace behind one array element: its `result` field.
pub open spec fn unwrapped_result(j: Json) -> Option<Json> {
    match j {
        Json::Object(fs) => lookup_field(fs, "result"@),
        _ => None,
    }
}

/// Every element's inner trace, in the elements' order; `None` if the
/// response is no array or one element carries no `result`.
pub open spec fn unwrapped_results(j: Json) -> Option<Seq<Json>> {
    match j {
        Json::Array(items) => if forall|i: int|
            0 <= i < items.len() ==> unwrapped_result(#[trigger] items[i]) is Some {
            Some(
                Seq::new(
                    items.len(),
                    |i: int|
                        if 0 <= i < items.len() {
                            unwrapped_result(items[i])->Some_0
                        } else {
                            Json::Null
                        },
                ),
            )
        } else {
            None
        },
        _ => None,
    }
}

/// Unwrapping preserves order: when a trace-block response unwraps,
/// the result has one element per response element, and element `i`
/// is exactly the `result` field of response element `i`.
pub proof fn lemma_unwrap_preserves_order(items: Seq<Json>, rs: Seq<Json>)
    requires
        unwrapped_results(Json::Array(items)) == Some(rs),
    ensures
        rs.len() == items.len(),
        forall|i: int| 0 <= i < items.len() ==> Some(rs[i]) == unwrapped_result(#[trigger] items[i]),
{
}

proof fn lemma_lookup_at(fields: Seq<JsonField>, key: Seq<char>, j: int)
    requires
        0 <= j < fields.len(),
        forall|k: int| 0 <= k < j ==> fields[k].name != key,
        fields[j].name == key,
    ensures
        lookup_field(fields, key) == Some(fields[j].value),
    decreases j,
{
    if j > 0 {
        lemma_lookup_at(fields.drop_first(), key, j - 1);
    }
}

proof fn lemma_lookup_none(fields: Seq<JsonField>, key: Seq<char>)
    requires
        forall|k: int| 0 <= k < fields.len() ==> fields[k].name != key,
    ensures
        lookup_field(fields, key) is None,
    decreases fields.len(),
{
    if fields.len() > 0 {
        lemma_lookup_none(fields.drop_first(), key);
    }
}

/// Takes the `result` field out of one trace wrapper object.
fn unwrap_result_field(item: JsonValue) -> (r: Option<JsonValue>)
    ensures
        match r {
            Some(inner) => unwrapped_result(json_of(item)) == Some(json_of(inner)),
            None => unwrapped_result(json_of(item)) is None,
        },
{
    let ghost jm = json_of(item);
    let mut fields = match item {
        JsonValue::Object(fields) => fields,
        _ => { return None },
    };
    let ghost m = jm->Object_0;
    let key = String::from_str("result");
    proof {
        reveal_strlit("result");
    }
    let mut j: usize = 0;
    while j < fields.len()
        invariant
            j <= fields@.len(),
            jm == json_of(item),
            jm is Object,
            jm->Object_0 == m,
            m.len() == fields@.len(),
            forall|k: int|
                0 <= k < fields@.len() ==> m[k] == (JsonField {
                    name: fields@[k].0@,
                    value: json_of(fields@[k].1),
                }),
            key@ == "result"@,
            forall|k: int| 0 <= k < j ==> m[k].name != "result"@,
        decreases fields@.len() - j,
    {
        if fields[j].0 == key {
            let found = fields.remove(j);
            proof {
                lemma_lookup_at(m, "result"@, j as int);
                assert(m[j as int].value == json_of(found.1));
                assert(unwrapped_result(jm) == Some(json_of(found.1)));
            }
            return Some(found.1);
        }
        j = j + 1;
    }
    proof {
        lemma_lookup_none(m, "result"@);
        assert(unwrapped_result(jm) is None);
    }
    None
}

/// Unwraps a trace-block response: one inner trace per element, in the
/// response's order — element `i` of the result is the trace of
/// transaction `i`.
pub fn unwrap_result_array(v: JsonValue) -> (r: Option<Vec<JsonValue>>)
    ensures
        match r {
            Some(out) => unwrapped_results(json_of(v)) == Some(jsons_of(out@)),
            None => unwrapped_results(json_of(v)) is None,
        },
{
    let ghost jv = json_of(v);
    let mut items = match v {
        JsonValue::Array(items) => items,
        _ => { return None },
    };
    let ghost m = jv->Array_0;
    proof {
        assert(m =~= jsons_of(items@));
    }
    let mut out: Vec<JsonValue> = Vec::new();
    let mut i: usize = 0;
    let n = items.len();
    while i < n
        invariant
            i <= n,
            jv == json_of(v),
            jv is Array,
            jv->Array_0 == m,
            n == m.len(),
            items@.len() == n - i,
            forall|k: int| 0 <= k < n - i ==> json_of(#[trigger] items@[k]) == m[k + i],
            out@.len() == i,
            forall|k: int|
                0 <= k < i ==> #[trigger] unwrapped_result(m[k]) == Some(json_of(out@[k])),
        decreases n - i,
    {
        let ghost pre_items = items@;
        let item = items.remove(0);
        proof {
            assert(json_of(item) == m[i as int]);
            assert forall|k: int| 0 <= k < n - i - 1 implies json_of(#[trigger] items@[k]) == m[k
                + i + 1] by {
                assert(items@[k] == pre_items[k + 1]);
            }
        }
        match unwrap_result_field(item) {
            Some(inner) => {
                out.push(inner);
            },
            None => {
                proof {
                    assert(unwrapped_result(m[i as int]) is None);
                    assert(unwrapped_results(jv) is None);
                }
                return None;
            },
        }
        i = i + 1;
    }
    proof {
        assert(unwrapped_results(jv) is Some);
        assert(unwrapped_results(jv)->Some_0 =~= jsons_of(out@));
    }
    Some(out)
}

/// Whether an object field's name is a twenty-byte hex address.
pub open spec fn address_key_ok(f: JsonField) -> bool {
    match parse_hex_bytes(f.name) {
        Some(b) => b.len() == 20,
        None => false,
    }
}

/// The fields of a prestate response: an object whose every key is an
/// address.
pub open spec fn prestate_fields(j: Json) -> Option<Seq<JsonField>> {
    match j {
        Json::Object(fs) => if forall|i: int| 0 <= i < fs.len() ==> address_key_ok(#[trigger] fs[i]) {
            Some(fs)
        } else {
            None
        },
        _ => None,
    }
}

/// How a decoded prestate mapping corresponds to the response fields:
/// same count, same order, each key read as an address, each account
/// state kept as it came.
pub open spec fn entries_match(entries: Seq<(Address, JsonValue)>, fs: Seq<JsonField>) -> bool {
    entries.len() == fs.len() && forall|i: int|
        0 <= i < fs.len() ==> parse_hex_bytes(#[trigger] fs[i].name) == Some(entries[i].0.0@)
            && json_of(entries[i].1) == fs[i].value
}

/// Reads a prestate response into address-to-state entries, in the
/// response's field order.
pub fn decode_prestate(v: JsonValue) -> (r: Option<Vec<(Address, JsonValue)>>)
    ensures
        match r {
            Some(out) => prestate_fields(json_of(v)) matches Some(fs) && entries_match(out@, fs),
            None => prestate_fields(json_of(v)) is None,
        },
{
    let ghost jv = json_of(v);
    let mut fields = match v {
        JsonValue::Object(fields) => fields,
        _ => { return None },
    };
    let ghost m = jv->Object_0;
    let mut out: Vec<(Address, JsonValue)> = Vec::new();
    let mut i: usize = 0;
    let n = fields.len();
    while i < n
        invariant
            i <= n,
            jv == json_of(v),
            jv is Object,
            jv->Object_0 == m,
            n == m.len(),
            fields@.len() == n - i,
            forall|k: int|
                0 <= k < n - i ==> m[k + i] == (JsonField {
                    name: fields@[k].0@,
                    value: json_of(fields@[k].1),
                }),
            out@.len() == i,
            forall|k: int| 0 <= k < i ==> address_key_ok(#[trigger] m[k]),
            forall|k: int|
                0 <= k < i ==> parse_hex_bytes(#[trigger] m[k].name) == Some(out@[k].0.0@)
                    && json_of(out@[k].1) == m[k].value,
        decreases n - i,
    {
        let ghost pre_fields = fields@;
        let field = fields.remove(0);
        proof {
            assert(m[i as int] == (JsonField { name: field.0@, value: json_of(field.1) }));
            assert forall|k: int| 0 <= k < n - i - 1 implies m[k + i + 1] == (JsonField {
                name: (#[trigger] fields@[k]).0@,
                value: json_of(fields@[k].1),
            }) by {
                assert(fields@[k] == pre_fields[k + 1]);
            }
        }
        let (name, state) = field;
        let text = JsonValue::Text(name);
        let addr = match decode_address(&text) {
            Some(a) => a,
            None => {
                proof {
                    assert(!address_key_ok(m[i as int]));
                }
                return None;
            },
        };
        out.push((addr, state));
        i = i + 1;
    }
    proof {
        assert(prestate_fields(jv) is Some);
        assert(entries_match(out@, m));
    }
    Some(out)
}

} // verus!
