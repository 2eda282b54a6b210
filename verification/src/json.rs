//! The boundary to `serde_json`.
//!
//! The protocol carries JSON, and `serde_json` reads and writes it. To the
//! verifier a `serde_json::Value` is opaque: what the library builds, and what
//! it reads out of a value it received, is stated over the spec functions of
//! this module. Each of them names what one `serde_json` operation yields; none
//! has a body, and the functions below them are believed, not proved.

use vstd::prelude::*;

verus! {

/// `serde_json::Value`: any JSON value. Of what it holds only the spec
/// functions below speak.
#[verifier::external_type_specification]
#[verifier::external_body]
pub struct ExValue(serde_json::Value);

/// `serde_json::Error`, carried as it is: nothing is known of what it holds.
#[verifier::external_type_specification]
#[verifier::external_body]
pub struct ExJsonError(serde_json::Error);

/// The JSON number that holds the unsigned integer `n`.
pub uninterp spec fn json_number(n: u64) -> serde_json::Value;

/// The JSON string with the characters `text`.
pub uninterp spec fn json_string(text: Seq<char>) -> serde_json::Value;

/// The JSON object collected from `members`, each a key with its value.
pub uninterp spec fn json_object(members: Seq<(Seq<char>, serde_json::Value)>) -> serde_json::Value;

/// The member of `value` under `key`; JSON null where `value` is no object or
/// has no such member.
pub uninterp spec fn json_field(value: serde_json::Value, key: Seq<char>) -> serde_json::Value;

/// The unsigned integer that `value` deserializes to, if it does.
pub uninterp spec fn json_unsigned(value: serde_json::Value) -> Option<u64>;

/// The value that the JSON text `bytes` denotes, if `bytes` is one JSON text.
pub uninterp spec fn json_parsed(bytes: Seq<u8>) -> Option<serde_json::Value>;

/// The compact JSON text of `value`, if it can be written.
pub uninterp spec fn json_text(value: serde_json::Value) -> Option<Seq<char>>;

/// The members of an object under construction, as [`json_object`] takes them.
pub open spec fn members_view(members: Seq<(String, serde_json::Value)>) -> Seq<
    (Seq<char>, serde_json::Value),
> {
    members.map_values(|member: (String, serde_json::Value)| (member.0@, member.1))
}

/// `clone` of a `serde_json::Value`. Believed: the copy equals the value it was made from.
pub assume_specification[ <serde_json::Value as Clone>::clone ](
    value: &serde_json::Value,
) -> (copy: serde_json::Value)
    ensures
        copy == *value,
;

/// `serde_json::Value::from` on a `u64`. Believed: the result is the JSON
/// number for `n`, the same for the same `n`.
#[verifier::external_body]
pub(crate) fn number(n: u64) -> (value: serde_json::Value)
    ensures
        value == json_number(n),
{
    serde_json::Value::from(n)
}

/// `serde_json::Value::from` on a `&str`. Believed: the result is the JSON
/// string with the characters of `text`.
#[verifier::external_body]
pub(crate) fn string(text: &str) -> (value: serde_json::Value)
    ensures
        value == json_string(text@),
{
    serde_json::Value::from(text)
}

/// `serde_json::Value`'s `FromIterator` for pairs of key and value. Believed:
/// the result is the JSON object collected from the members in their order.
#[verifier::external_body]
pub(crate) fn object(members: Vec<(String, serde_json::Value)>) -> (value: serde_json::Value)
    ensures
        value == json_object(members_view(members@)),
{
    serde_json::Value::from_iter(members)
}

/// Indexing a `serde_json::Value` by a string key. Believed: the result is
/// the member under `key`, and JSON null where `value` is no object or has no
/// such member; indexing for reading does not panic.
#[verifier::external_body]
pub(crate) fn field<'a>(value: &'a serde_json::Value, key: &str) -> (member: &'a serde_json::Value)
    ensures
        *member == json_field(*value, key@),
{
    &value[key]
}

/// `serde_json::from_value` at `u64`. Believed: whether it succeeds, and the
/// integer it gives, depend on `value` alone.
#[verifier::external_body]
pub(crate) fn unsigned(value: serde_json::Value) -> (read: Result<u64, serde_json::Error>)
    ensures
        read is Ok <==> json_unsigned(value) is Some,
        read matches Ok(n) ==> json_unsigned(value) == Some(n),
{
    serde_json::from_value::<u64>(value)
}

/// `serde_json::from_slice` at `serde_json::Value`. Believed: whether it
/// succeeds, and the value it gives, depend on `bytes` alone.
#[verifier::external_body]
pub(crate) fn parse(bytes: &[u8]) -> (parsed: Result<serde_json::Value, serde_json::Error>)
    ensures
        parsed is Ok <==> json_parsed(bytes@) is Some,
        parsed matches Ok(value) ==> json_parsed(bytes@) == Some(value),
{
    serde_json::from_slice::<serde_json::Value>(bytes)
}

/// `serde_json::to_string` on a `serde_json::Value`. Believed: whether it
/// succeeds, and the text it gives, depend on `value` alone.
#[verifier::external_body]
pub(crate) fn print(value: &serde_json::Value) -> (printed: Result<String, serde_json::Error>)
    ensures
        printed is Ok <==> json_text(*value) is Some,
        printed matches Ok(text) ==> json_text(*value) == Some(text@),
{
    serde_json::to_string(value)
}

} // verus!
