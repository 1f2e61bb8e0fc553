use vstd::prelude::*;
use serde_json::Value;
use crate::util::json_extract::{JsonModel, JsonNumber, JsonValue};

verus! {

#[verifier::external_type_specification]
#[verifier::external_body]
pub struct ExSerdeValue(Value);

/// The text that `format!("{:?}", ..)` gives for an optional document once
/// it is a `serde_json::Value` (as `to_serde_value` builds it), by
/// serde_json's `Debug` impl. `to_serde_value` reads nothing but the
/// document's content, so the text depends on the model alone.
pub uninterp spec fn json_debug_text(v: Option<JsonModel>) -> Seq<char>;

/// The model of an optional document.
pub open spec fn optional_json_model(v: Option<JsonValue>) -> Option<JsonModel> {
    match v {
        Some(x) => Some(x@),
        None => None,
    }
}

/// `Value::Null`.
#[verifier::external_body]
fn serde_null() -> Value {
    Value::Null
}

/// `Value::Bool(b)`.
#[verifier::external_body]
fn serde_bool(b: bool) -> Value {
    Value::Bool(b)
}

/// `Value::Number(Number::from(n))`.
#[verifier::external_body]
fn serde_pos_int(n: u64) -> Value {
    Value::Number(serde_json::Number::from(n))
}

/// `Value::Number(Number::from(n))`.
#[verifier::external_body]
fn serde_neg_int(n: i64) -> Value {
    Value::Number(serde_json::Number::from(n))
}

/// The number that `serde_json` reads from the text, or `Value::Null` when
/// it reads none.
#[verifier::external_body]
fn serde_number_text(text: &str) -> Value {
    match serde_json::from_str::<serde_json::Number>(text) {
        Ok(n) => Value::Number(n),
        Err(_) => Value::Null,
    }
}

/// `Value::String(s)`.
#[verifier::external_body]
fn serde_string(s: String) -> Value {
    Value::String(s)
}

/// `Value::Array(items)`.
#[verifier::external_body]
fn serde_array(items: Vec<Value>) -> Value {
    Value::Array(items)
}

/// `Value::Object` with the entries inserted in order.
#[verifier::external_body]
fn serde_object(entries: Vec<(String, Value)>) -> Value {
    Value::Object(entries.into_iter().collect::<serde_json::Map<String, Value>>())
}

/// The `serde_json::Value` with the content of a document: arrays and
/// objects are built from the conversions of their items, one per item.
pub fn to_serde_value(v: &JsonValue) -> (r: Value)
    decreases v, 1nat,
{
    match v {
        JsonValue::Null => serde_null(),
        JsonValue::Bool(b) => serde_bool(*b),
        JsonValue::Number(JsonNumber::PosInt(n)) => serde_pos_int(*n),
        JsonValue::Number(JsonNumber::NegInt(n)) => serde_neg_int(*n),
        JsonValue::Number(JsonNumber::Float(t)) => serde_number_text(t.as_str()),
        JsonValue::Text(t) => serde_string(t.clone()),
        JsonValue::Array(items) => {
            proof {
                assert(decreases_to!(*v => v->Array_0));
            }
            serde_array(serde_items(items))
        },
        JsonValue::Object(entries) => {
            proof {
                assert(decreases_to!(*v => v->Object_0));
            }
            serde_object(serde_entries(entries))
        },
    }
}

/// The conversions of the items of an array, one per item, in order.
pub fn serde_items(items: &Vec<JsonValue>) -> (r: Vec<Value>)
    ensures
        r@.len() == items@.len(),
    decreases items, 0nat,
{
    let mut out: Vec<Value> = Vec::new();
    let n = items.len();
    let mut i: usize = 0;
    while i < n
        invariant
            n == items@.len(),
            i <= n,
            out@.len() == i,
        decreases n - i,
    {
        proof {
            assert(decreases_to!(*items => items@));
            assert(decreases_to!(items@ => items@[i as int]));
        }
        out.push(to_serde_value(&items[i]));
        i = i + 1;
    }
    out
}

/// The entries of an object with their values converted: one per entry, in
/// order, each under its own key.
pub fn serde_entries(entries: &Vec<(String, JsonValue)>) -> (r: Vec<(String, Value)>)
    ensures
        r@.len() == entries@.len(),
        forall|j: int| 0 <= j < r@.len() ==> (#[trigger] r@[j]).0@ == entries@[j].0@,
    decreases entries, 0nat,
{
    let mut out: Vec<(String, Value)> = Vec::new();
    let n = entries.len();
    let mut i: usize = 0;
    while i < n
        invariant
            n == entries@.len(),
            i <= n,
            out@.len() == i,
            forall|j: int| 0 <= j < i ==> (#[trigger] out@[j]).0@ == entries@[j].0@,
        decreases n - i,
    {
        proof {
            assert(decreases_to!(*entries => entries@));
            assert(decreases_to!(entries@ => entries@[i as int]));
            assert(decreases_to!(entries@[i as int] => entries@[i as int].1));
        }
        let k = entries[i].0.clone();
        out.push((k, to_serde_value(&entries[i].1)));
        i = i + 1;
    }
    out
}

/// `format!("{:?}", v)` for an optional document, made a
/// `serde_json::Value` by `to_serde_value`: the text is `json_debug_text` of
/// its model.
#[verifier::external_body]
pub(crate) fn json_debug_text_of(v: &Option<JsonValue>) -> (r: String)
    ensures
        r@ == json_debug_text(optional_json_model(*v)),
{
    format!("{:?}", v.as_ref().map(to_serde_value))
}

} // verus!
