//! The JSON-RPC envelope as the core sees it: a JSON value model of the
//! library's own, the request and reply shapes, and field lookup in an
//! object.

use vstd::prelude::*;

verus! {

/// A JSON value, held as plain data. The transport edge converts its own
/// parsed representation into this one before the core sees a request.
/// A number is carried as a signed or unsigned 64-bit integer.
#[derive(Debug)]
pub enum JsonValue {
    Null,
    Bool(bool),
    Int(i64),
    Uint(u64),
    Str(String),
    Arr(Vec<JsonValue>),
    Obj(Vec<(String, JsonValue)>),
}

/// A JSON-RPC request envelope. `params`, when present, is a positional
/// array.
#[derive(Debug)]
pub struct JsonRpcRequest {
    pub id: JsonValue,
    pub jsonrpc: String,
    pub method: String,
    pub params: Option<Vec<JsonValue>>,
}

/// The payload of a JSON-RPC reply: a result or an error message.
#[derive(Debug)]
pub enum JsonRpcResult {
    Result(JsonValue),
    Error(String),
}

/// A JSON-RPC reply envelope, echoing the request's `id` and version.
#[derive(Debug)]
pub struct JsonRpcReply {
    pub id: JsonValue,
    pub jsonrpc: String,
    pub result: JsonRpcResult,
}

/// The body of the address endpoint's reply.
#[derive(Debug)]
pub struct AddressResponse {
    pub address: String,
}

/// The value under the first entry of `entries` whose key reads `key`.
pub open spec fn obj_lookup(entries: Seq<(String, JsonValue)>, key: Seq<char>) -> Option<
    JsonValue,
>
    decreases entries.len(),
{
    if entries.len() == 0 {
        None
    } else if entries[0].0@ == key {
        Some(entries[0].1)
    } else {
        obj_lookup(entries.skip(1), key)
    }
}

proof fn lemma_obj_lookup_skip(entries: Seq<(String, JsonValue)>, key: Seq<char>, i: int)
    requires
        0 <= i <= entries.len(),
        forall|k: int| 0 <= k < i ==> #[trigger] entries[k].0@ != key,
    ensures
        obj_lookup(entries, key) == obj_lookup(entries.skip(i), key),
    decreases i,
{
    if i > 0 {
        assert(entries.len() > 0);
        assert(entries[0].0@ != key);
        let rest = entries.skip(1);
        assert(forall|k: int| 0 <= k < i - 1 ==> #[trigger] rest[k].0@ == entries[k + 1].0@);
        lemma_obj_lookup_skip(rest, key, i - 1);
        assert(rest.skip(i - 1) =~= entries.skip(i));
    } else {
        assert(entries.skip(0) =~= entries);
    }
}

/// Finds the value under `key` in an object's entry list, taking the first
/// entry when a key repeats.
pub fn lookup_field<'a>(entries: &'a Vec<(String, JsonValue)>, key: &String) -> (r: Option<
    &'a JsonValue,
>)
    ensures
        r matches Some(v) ==> obj_lookup(entries@, key@) == Some(*v),
        r is None ==> obj_lookup(entries@, key@) is None,
{
    let mut i: usize = 0;
    while i < entries.len()
        invariant
            i <= entries@.len(),
            forall|k: int| 0 <= k < i ==> #[trigger] entries@[k].0@ != key@,
        decreases entries@.len() - i,
    {
        let e = &entries[i];
        if e.0.eq(key) {
            proof {
                lemma_obj_lookup_skip(entries@, key@, i as int);
                assert(entries@.skip(i as int)[0] == entries@[i as int]);
                assert(obj_lookup(entries@.skip(i as int), key@) == Some(entries@[i as int].1));
            }
            return Some(&e.1);
        }
        i += 1;
    }
    proof {
        lemma_obj_lookup_skip(entries@, key@, entries@.len() as int);
        assert(entries@.skip(entries@.len() as int) =~= Seq::<(String, JsonValue)>::empty());
    }
    None
}

} // verus!
