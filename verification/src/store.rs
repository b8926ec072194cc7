//! The persisted last-reply record: converting between the comment id the
//! pipeline works with and the JSON value the durable key-value store holds.
//!
//! The store itself is an external collaborator; this module only encodes
//! and decodes the one value kept under its single fixed key. A missing or
//! malformed stored value degrades to the sentinel 0, "no prior reply".

use vstd::prelude::*;

verus! {

/// serde_json's JSON value, the type the durable store reads and writes.
/// Opaque here: its contents are reached only through [`json_u64_of`].
#[verifier::external_type_specification]
#[verifier::external_body]
pub struct ExJsonValue(serde_json::Value);

/// The u64 a JSON value holds, when it holds one: `Some(n)` exactly when the
/// value is an integer representable as `u64`. A function of the value
/// alone; the two wrappers below say how serde_json computes it.
pub uninterp spec fn json_u64_of(v: serde_json::Value) -> Option<u64>;

/// Relies on serde_json's `From<u64> for Value`: the id becomes a JSON
/// number holding exactly `n`, which `Value::as_u64` reads back as `Some(n)`.
#[verifier::external_body]
fn json_of_u64(n: u64) -> (v: serde_json::Value)
    ensures
        json_u64_of(v) == Some(n),
{
    serde_json::Value::from(n)
}

/// Relies on serde_json's `Value::as_u64`: `Some` exactly when the value is
/// an integer representable as `u64`, `None` otherwise.
#[verifier::external_body]
fn json_as_u64(v: &serde_json::Value) -> (r: Option<u64>)
    ensures
        r == json_u64_of(*v),
{
    v.as_u64()
}

/// The comment id a stored value holds: 0 when the store held nothing (the
/// first run) and 0 when the value is not a `u64` number; otherwise the
/// stored id.
pub fn decode_last_reply(stored: Option<serde_json::Value>) -> (id: u64)
    ensures
        id == (match stored {
            None => 0u64,
            Some(v) => (match json_u64_of(v) {
                Some(n) => n,
                None => 0u64,
            }),
        }),
{
    match stored {
        None => 0,
        Some(v) => match json_as_u64(&v) {
            Some(id) => id,
            None => 0,
        },
    }
}

/// The JSON value under which a newly recorded comment id is persisted:
/// it holds exactly `id`, so decoding it on the next run reads the id back.
pub fn encode_last_reply(id: u64) -> (v: serde_json::Value)
    ensures
        json_u64_of(v) == Some(id),
{
    json_of_u64(id)
}

} // verus!
