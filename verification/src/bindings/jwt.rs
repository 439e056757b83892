//! JSON Web Tokens.

use vstd::prelude::*;
use crate::bindings::json::{json_integer_members, json_text_members, json_unsigned_members};

verus! {

/// The string and integer members of a token's payload.
pub struct PayloadMembers {
    /// The members that are strings.
    pub text: Map<Seq<char>, Seq<char>>,
    /// The members that are integers within the range of `i64`.
    pub integers: Map<Seq<char>, i64>,
    /// The members that are integers within the range of `u64`.
    pub unsigned: Map<Seq<char>, u64>,
}

/// The members of a parsed payload.
pub open spec fn payload_members(doc: serde_json::Value) -> PayloadMembers {
    PayloadMembers {
        text: json_text_members(doc),
        integers: json_integer_members(doc),
        unsigned: json_unsigned_members(doc),
    }
}

/// The keys and values of a list of string members.
pub open spec fn text_pairs(members: Seq<(String, String)>) -> Seq<(Seq<char>, Seq<char>)> {
    members.map_values(|member: (String, String)| (member.0@, member.1@))
}

/// The keys and values of a list of number members.
pub open spec fn number_pairs(members: Seq<(String, u64)>) -> Seq<(Seq<char>, u64)> {
    members.map_values(|member: (String, u64)| (member.0@, member.1))
}

/// The token that `jsonwebtoken::encode` makes, with the default header and
/// a key made of `secret`, of the JSON object with the given string and
/// number members; `None` where it fails.
pub uninterp spec fn hs256_token(
    text: Seq<(Seq<char>, Seq<char>)>,
    numbers: Seq<(Seq<char>, u64)>,
    secret: Seq<u8>,
) -> Option<Seq<char>>;

/// What `jsonwebtoken::dangerous::insecure_decode` makes of a token when the
/// payload is read as a `serde_json::Value`: the members of the payload, or
/// the text of the error.
pub uninterp spec fn unverified_payload(token: Seq<char>) -> Result<PayloadMembers, Seq<char>>;

/// Calls `jsonwebtoken::dangerous::insecure_decode` with `serde_json::Value`
/// as the type of the claims. The token must have three parts separated by
/// dots, a header that decodes, and a payload that is base64url-encoded
/// JSON; no signature, expiry or other claim is checked. Returns the payload,
/// or the error's text as `Display` prints it. The outcome depends on the
/// token alone.
#[verifier::external_body]
pub(crate) fn insecure_decode_payload(token: &str) -> (decoded: Result<serde_json::Value, String>)
    ensures
        match decoded {
            Ok(doc) => unverified_payload(token@) == Ok::<PayloadMembers, Seq<char>>(
                payload_members(doc),
            ),
            Err(message) => unverified_payload(token@) == Err::<PayloadMembers, Seq<char>>(
                message@,
            ),
        },
{
    match jsonwebtoken::dangerous::insecure_decode::<serde_json::Value>(token) {
        Ok(data) => Ok(data.claims),
        Err(error) => Err(error.to_string()),
    }
}

/// Builds a JSON object of the given members, strings first, and signs it
/// with `jsonwebtoken::encode`: default header (HS256) and
/// `EncodingKey::from_secret`. A key given twice keeps its last value. The
/// token depends on the members and the secret alone.
#[verifier::external_body]
pub(crate) fn sign_hs256(
    text: &Vec<(String, String)>,
    numbers: &Vec<(String, u64)>,
    secret: &[u8],
) -> (token: Option<String>)
    ensures
        match token {
            Some(signed) => hs256_token(text_pairs(text@), number_pairs(numbers@), secret@) == Some(
                signed@,
            ),
            None => hs256_token(text_pairs(text@), number_pairs(numbers@), secret@) is None,
        },
{
    let mut payload = serde_json::Map::new();
    payload.extend(text.iter().map(|(key, value)| (key.clone(), value.as_str().into())));
    payload.extend(numbers.iter().map(|(key, value)| (key.clone(), (*value).into())));
    let key = jsonwebtoken::EncodingKey::from_secret(secret);
    jsonwebtoken::encode(&jsonwebtoken::Header::default(), &payload, &key).ok()
}

/// Calls `jsonwebtoken::decode` with `serde_json::Value` as the type of the
/// claims, a key made of `secret` and `Validation::default()`: the token
/// must be signed with HS256 and this secret, and carry an `exp` that lies
/// no more than a minute behind the system clock. Whether a token passes
/// therefore depends on the time of the call. A token that passes has the
/// payload that decoding without validation finds.
#[verifier::external_body]
pub(crate) fn decode_hs256(token: &str, secret: &[u8]) -> (payload: Option<serde_json::Value>)
    ensures
        match payload {
            Some(doc) => unverified_payload(token@) == Ok::<PayloadMembers, Seq<char>>(
                payload_members(doc),
            ),
            None => true,
        },
{
    let key = jsonwebtoken::DecodingKey::from_secret(secret);
    let validation = jsonwebtoken::Validation::default();
    jsonwebtoken::decode::<serde_json::Value>(token, &key, &validation).ok().map(|data| data.claims)
}

} // verus!
