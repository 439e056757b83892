//! Reading members out of a parsed JSON document.

use vstd::prelude::*;

verus! {

#[verifier::external_type_specification]
#[verifier::external_body]
pub struct ExJsonValue(serde_json::Value);

/// The members of a JSON object whose value is a string, by key. Empty for a
/// document that is not an object.
pub uninterp spec fn json_text_members(doc: serde_json::Value) -> Map<Seq<char>, Seq<char>>;

/// The members of a JSON object whose value is an integer that fits in
/// `i64`, by key. Empty for a document that is not an object.
pub uninterp spec fn json_integer_members(doc: serde_json::Value) -> Map<Seq<char>, i64>;

/// The members of a JSON object whose value is an integer that is not
/// negative and fits in `u64`, by key. Empty for a document that is not an
/// object.
pub uninterp spec fn json_unsigned_members(doc: serde_json::Value) -> Map<Seq<char>, u64>;

/// Looks `key` up with `serde_json::Value::get` and reads the member with
/// `Value::as_str`: the text of a string member, `None` where the document
/// is not an object, has no such member, or the member is not a string.
#[verifier::external_body]
pub(crate) fn json_text_member(doc: &serde_json::Value, key: &str) -> (member: Option<String>)
    ensures
        member matches Some(text) ==> json_text_members(*doc).contains_key(key@)
            && json_text_members(*doc)[key@] == text@,
        member is None ==> !json_text_members(*doc).contains_key(key@),
{
    doc.get(key).and_then(|member| member.as_str()).map(|text| text.to_string())
}

/// Looks `key` up with `serde_json::Value::get` and reads the member with
/// `Value::as_i64`: the value of an integer member within the range of
/// `i64`, `None` where the document is not an object, has no such member, or
/// the member is anything else (a float, a larger integer, a string).
#[verifier::external_body]
pub(crate) fn json_integer_member(doc: &serde_json::Value, key: &str) -> (member: Option<i64>)
    ensures
        member matches Some(number) ==> json_integer_members(*doc).contains_key(key@)
            && json_integer_members(*doc)[key@] == number,
        member is None ==> !json_integer_members(*doc).contains_key(key@),
{
    doc.get(key).and_then(|member| member.as_i64())
}

/// Looks `key` up with `serde_json::Value::get` and reads the member with
/// `Value::as_u64`: the value of an integer member that is not negative,
/// `None` where the document is not an object, has no such member, or the
/// member is anything else.
#[verifier::external_body]
pub(crate) fn json_unsigned_member(doc: &serde_json::Value, key: &str) -> (member: Option<u64>)
    ensures
        member matches Some(number) ==> json_unsigned_members(*doc).contains_key(key@)
            && json_unsigned_members(*doc)[key@] == number,
        member is None ==> !json_unsigned_members(*doc).contains_key(key@),
{
    doc.get(key).and_then(|member| member.as_u64())
}

} // verus!
