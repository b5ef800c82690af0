use vstd::prelude::*;

verus! {

/// The string found at JSON pointer `pointer` (RFC 6901) in the JSON text `body`,
/// or `None` where `body` is no JSON text or holds no string there.
pub uninterp spec fn json_str_at(body: Seq<u8>, pointer: Seq<char>) -> Option<Seq<char>>;

/// The length of the array found at JSON pointer `pointer` in the JSON text `body`,
/// or `None` where `body` is no JSON text or holds no array there.
pub uninterp spec fn json_array_len_at(body: Seq<u8>, pointer: Seq<char>) -> Option<nat>;

/// The unsigned integer found at JSON pointer `pointer` in the JSON text `body`,
/// or `None` where `body` is no JSON text or holds no such number there.
pub uninterp spec fn json_u64_at(body: Seq<u8>, pointer: Seq<char>) -> Option<u64>;

/// Relies on `serde_json::from_slice` into a `serde_json::Value`, then
/// `Value::pointer` and `Value::as_u64`: looks up an unsigned integer member.
#[verifier::external_body]
pub(crate) fn u64_at(body: &[u8], pointer: &str) -> (r: Option<u64>)
    ensures
        r == json_u64_at(body@, pointer@),
{
    serde_json::from_slice::<serde_json::Value>(body)
        .ok()
        .and_then(|v| v.pointer(pointer).and_then(|m| m.as_u64()))
}

/// Relies on `serde_json::from_slice` into a `serde_json::Value`, then
/// `Value::pointer` and `Value::as_str`: looks up a string member.
#[verifier::external_body]
pub(crate) fn str_at(body: &[u8], pointer: &str) -> (r: Option<String>)
    ensures
        match r {
            Some(s) => json_str_at(body@, pointer@) == Some(s@),
            None => json_str_at(body@, pointer@) is None,
        },
{
    serde_json::from_slice::<serde_json::Value>(body)
        .ok()
        .and_then(|v| v.pointer(pointer).and_then(|m| m.as_str()).map(|s| s.to_string()))
}

/// Relies on `serde_json::from_slice` into a `serde_json::Value`, then
/// `Value::pointer` and `Value::as_array`: the length of an array member.
#[verifier::external_body]
pub(crate) fn array_len_at(body: &[u8], pointer: &str) -> (r: Option<usize>)
    ensures
        match r {
            Some(n) => json_array_len_at(body@, pointer@) == Some(n as nat),
            None => json_array_len_at(body@, pointer@) is None,
        },
{
    serde_json::from_slice::<serde_json::Value>(body)
        .ok()
        .and_then(|v| v.pointer(pointer).and_then(|m| m.as_array()).map(|a| a.len()))
}

} // verus!
