//! Helpers for building [`Command`] values.
use vstd::prelude::*;

use crate::types::{BatchItem, Command, CommandType};
use crate::value::{is_integer, is_text, Value};

verus! {

/// The entries of the map that a command carries as its payload.
pub open spec fn payload_entries(c: Command) -> Seq<(Value, Value)> {
    match c.payload {
        Some(Value::Dict(m)) => m@,
        _ => Seq::empty(),
    }
}

/// `c` carries a map as its payload, with `n` entries.
pub open spec fn has_map_payload(c: Command, n: int) -> bool {
    c.payload matches Some(Value::Dict(m)) && m@.len() == n
}

/// Entry `i` of `c`'s payload has the key `key` and the string value `text`.
pub open spec fn text_entry(c: Command, i: int, key: Seq<char>, text: Seq<char>) -> bool {
    is_text(payload_entries(c)[i].0, key) && is_text(payload_entries(c)[i].1, text)
}

/// Entry `i` of `c`'s payload has the key `key` and the value `v`.
pub open spec fn value_entry(c: Command, i: int, key: Seq<char>, v: Value) -> bool {
    is_text(payload_entries(c)[i].0, key) && payload_entries(c)[i].1 == v
}

fn text_pair(key: &str, text: &str) -> (e: (Value, Value))
    ensures
        is_text(e.0, key@),
        is_text(e.1, text@),
{
    (Value::from_str(key), Value::from_str(text))
}

/// Publish an event to the MessageBus.
pub fn emit_event(topic: &str, payload: Value) -> (c: Command)
    ensures
        c.kind == CommandType::EmitEvent,
        has_map_payload(c, 2),
        text_entry(c, 0, "topic"@, topic@),
        value_entry(c, 1, "payload"@, payload),
{
    let entries = vec![text_pair("topic", topic), (Value::from_str("payload"), payload)];
    Command { kind: CommandType::EmitEvent, payload: Some(Value::Dict(entries)) }
}

/// Invoke another skill via `call_module`.
pub fn call_module(skill_id: &str, method: &str, payload: Value, callback: &str, call_ctx: &str) -> (c: Command)
    ensures
        c.kind == CommandType::CallModule,
        has_map_payload(c, 5),
        text_entry(c, 0, "skill_id"@, skill_id@),
        text_entry(c, 1, "method"@, method@),
        value_entry(c, 2, "payload"@, payload),
        text_entry(c, 3, "callback"@, callback@),
        text_entry(c, 4, "call_ctx"@, call_ctx@),
{
    let entries = vec![
        text_pair("skill_id", skill_id),
        text_pair("method", method),
        (Value::from_str("payload"), payload),
        text_pair("callback", callback),
        text_pair("call_ctx", call_ctx),
    ];
    Command { kind: CommandType::CallModule, payload: Some(Value::Dict(entries)) }
}

/// Store a value in the Shared KV (L3).
pub fn store_kv(key: &str, value: Value) -> (c: Command)
    ensures
        c.kind == CommandType::StoreKv,
        has_map_payload(c, 2),
        text_entry(c, 0, "key"@, key@),
        value_entry(c, 1, "value"@, value),
{
    let entries = vec![text_pair("key", key), (Value::from_str("value"), value)];
    Command { kind: CommandType::StoreKv, payload: Some(Value::Dict(entries)) }
}

/// Load a value from the Shared KV (L3). Result delivered to `callback`.
pub fn load_kv(key: &str, callback: &str) -> (c: Command)
    ensures
        c.kind == CommandType::LoadKv,
        has_map_payload(c, 2),
        text_entry(c, 0, "key"@, key@),
        text_entry(c, 1, "callback"@, callback@),
{
    let entries = vec![text_pair("key", key), text_pair("callback", callback)];
    Command { kind: CommandType::LoadKv, payload: Some(Value::Dict(entries)) }
}

/// Schedule a delayed invocation of `method` in this skill.
pub fn schedule(method: &str, delay_ms: i64, payload: Value) -> (c: Command)
    ensures
        c.kind == CommandType::Schedule,
        has_map_payload(c, 3),
        text_entry(c, 0, "method"@, method@),
        is_text(payload_entries(c)[1].0, "delay_ms"@),
        is_integer(payload_entries(c)[1].1, delay_ms as int),
        value_entry(c, 2, "payload"@, payload),
{
    let entries = vec![
        text_pair("method", method),
        (Value::from_str("delay_ms"), Value::from_i64(delay_ms)),
        (Value::from_str("payload"), payload),
    ];
    Command { kind: CommandType::Schedule, payload: Some(Value::Dict(entries)) }
}

/// `v` is the map that describes batch item `it` to the host: its index,
/// skill ID, method and payload bytes, in that order.
pub open spec fn encodes_batch_item(v: Value, it: BatchItem) -> bool {
    &&& v matches Value::Dict(m)
    &&& m@.len() == 4
    &&& is_text(m@[0].0, "index"@) && is_integer(m@[0].1, it.index as int)
    &&& is_text(m@[1].0, "skill_id"@) && is_text(m@[1].1, it.skill_id@)
    &&& is_text(m@[2].0, "method"@) && is_text(m@[2].1, it.method@)
    &&& is_text(m@[3].0, "payload"@) && (m@[3].1 matches Value::Binary(b) && b@ == it.payload@)
}

fn encode_batch_item(it: BatchItem) -> (v: Value)
    ensures
        encodes_batch_item(v, it),
{
    let BatchItem { index, skill_id, method, payload } = it;
    let entries = vec![
        (Value::from_str("index"), Value::from_u64(index as u64)),
        (Value::from_str("skill_id"), Value::String(skill_id)),
        (Value::from_str("method"), Value::String(method)),
        (Value::from_str("payload"), Value::Binary(payload)),
    ];
    Value::Dict(entries)
}

/// Build a `batch_invoke` command.
pub fn batch_invoke(items: Vec<BatchItem>, callback: &str, concurrency: u32) -> (c: Command)
    ensures
        c.kind == CommandType::BatchInvoke,
        has_map_payload(c, 3),
        is_text(payload_entries(c)[0].0, "items"@),
        payload_entries(c)[0].1 matches Value::Array(raw) && raw@.len() == items@.len()
            && forall|i: int| 0 <= i < items@.len() ==> encodes_batch_item(#[trigger] raw@[i], items@[i]),
        text_entry(c, 1, "callback"@, callback@),
        is_text(payload_entries(c)[2].0, "concurrency"@),
        is_integer(payload_entries(c)[2].1, concurrency as int),
{
    let ghost given = items@;
    let mut raw_items: Vec<Value> = Vec::new();
    for it in iter: items
        invariant
            iter.seq() == given,
            raw_items@.len() == iter.index(),
            forall|i: int| 0 <= i < raw_items@.len() ==> encodes_batch_item(#[trigger] raw_items@[i], given[i]),
    {
        raw_items.push(encode_batch_item(it));
    }
    let entries = vec![
        (Value::from_str("items"), Value::Array(raw_items)),
        text_pair("callback", callback),
        (Value::from_str("concurrency"), Value::from_u64(concurrency as u64)),
    ];
    Command { kind: CommandType::BatchInvoke, payload: Some(Value::Dict(entries)) }
}

/// An entry that holds a key and a text is a pair of string values with
/// exactly that key and that text; an entry that holds a key and a value
/// is a string key with that text and exactly that value.
pub proof fn law_payload_entries(c: Command, i: int, key: Seq<char>, text: Seq<char>, v: Value)
    ensures
        text_entry(c, i, key, text) <==> (payload_entries(c)[i].0 is String && payload_entries(c)[i].0->String_0@ == key
            && payload_entries(c)[i].1 is String && payload_entries(c)[i].1->String_0@ == text),
        value_entry(c, i, key, v) <==> (payload_entries(c)[i].0 is String && payload_entries(c)[i].0->String_0@ == key
            && payload_entries(c)[i].1 == v),
        has_map_payload(c, payload_entries(c).len() as int) <==> (c.payload matches Some(Value::Dict(_))),
{
}

/// A batch item is described by a map of exactly four entries: `index`
/// with the item's index as a non-negative integer, `skill_id` and `method`
/// with the item's texts, and `payload` with its bytes as binary.
pub proof fn law_batch_item_encoding(v: Value, it: BatchItem)
    ensures
        encodes_batch_item(v, it) ==> v is Dict,
        encodes_batch_item(v, it) ==> v->Dict_0@.len() == 4,
        encodes_batch_item(v, it) ==> v->Dict_0@[0].1 == Value::PosInt(it.index as u64),
        encodes_batch_item(v, it) ==> v->Dict_0@[1].1 is String && v->Dict_0@[1].1->String_0@ == it.skill_id@,
        encodes_batch_item(v, it) ==> v->Dict_0@[2].1 is String && v->Dict_0@[2].1->String_0@ == it.method@,
        encodes_batch_item(v, it) ==> v->Dict_0@[3].1 is Binary && v->Dict_0@[3].1->Binary_0@ == it.payload@,
{
}

} // verus!
