//! Reading the claims of an access token.
//!
//! The client receives its tokens from the server it trusts, so it reads the
//! payload without checking the signature: verification is the server's job.

use vstd::prelude::*;
use vstd::string::*;
use crate::bindings::clock::unix_now;
use crate::bindings::ids::{parse_uuid, parsed_uuid};
use crate::bindings::json::{json_integer_member, json_text_member};
use crate::bindings::jwt::{insecure_decode_payload, unverified_payload};
use crate::client::error::{ClientError, ClientErrorView};

verus! {

/// The claims the client reads from an access token.
#[derive(Debug, PartialEq, Eq)]
pub struct Claims {
    /// Identifier of the user the token was issued to.
    pub sub: String,
    /// Display name of that user.
    pub user_name: String,
    /// Expiry, in seconds since the Unix epoch.
    pub exp: i64,
}

/// The mathematical value of a [`Claims`].
pub struct ClaimsView {
    pub sub: Seq<char>,
    pub user_name: Seq<char>,
    pub exp: i64,
}

impl View for Claims {
    type V = ClaimsView;

    open spec fn view(&self) -> ClaimsView {
        ClaimsView { sub: self.sub@, user_name: self.user_name@, exp: self.exp }
    }
}

impl Clone for Claims {
    fn clone(&self) -> (copy: Self)
        ensures
            copy@ == self@,
    {
        Claims { sub: self.sub.clone(), user_name: self.user_name.clone(), exp: self.exp }
    }
}

impl ClaimsView {
    /// Whether the token is within `buffer_seconds` of its expiry at the
    /// instant `now`, the expiry itself included.
    pub open spec fn expires_soon_at(self, now: i64, buffer_seconds: i64) -> bool {
        self.exp <= now + buffer_seconds
    }
}

impl Claims {
    /// Whether the token is within `buffer_seconds` of its expiry at the
    /// instant `now`. The sum is taken in the integers: no pair of arguments
    /// overflows.
    pub fn expires_soon_at(&self, now: i64, buffer_seconds: i64) -> (soon: bool)
        ensures
            soon == self@.expires_soon_at(now, buffer_seconds),
            self.exp > now + buffer_seconds ==> !soon,
            self.exp <= now + buffer_seconds ==> soon,
    {
        (self.exp as i128) <= (now as i128) + (buffer_seconds as i128)
    }

    /// Whether the token expires within `buffer_seconds` from now. The clock
    /// is read at each call.
    pub fn expires_soon(&self, buffer_seconds: i64) -> (soon: bool)
        ensures
            exists|now: i64| now >= 0 && soon == #[trigger] self@.expires_soon_at(now, buffer_seconds),
    {
        let now = unix_now();
        self.expires_soon_at(now, buffer_seconds)
    }
}

/// The error reported for a token that cannot be decoded. It is of a kind
/// of its own, apart from what a failing server or network is reported as.
pub open spec fn decode_failure(reason: Seq<char>) -> ClientErrorView {
    ClientErrorView::DecodeError("Failed to decode token: "@ + reason)
}

/// The claims a token carries, or the error its decoding ends with.
///
/// The payload must hold a string `sub`, a string `user_name` and an integer
/// `exp` within the range of `i64`; other members are ignored.
pub open spec fn decoded_claims(token: Seq<char>) -> Result<ClaimsView, ClientErrorView> {
    match unverified_payload(token) {
        Err(reason) => Err(decode_failure(reason)),
        Ok(members) => if !members.text.contains_key("sub"@) {
            Err(decode_failure("missing or invalid field `sub`"@))
        } else if !members.text.contains_key("user_name"@) {
            Err(decode_failure("missing or invalid field `user_name`"@))
        } else if !members.integers.contains_key("exp"@) {
            Err(decode_failure("missing or invalid field `exp`"@))
        } else {
            Ok(
                ClaimsView {
                    sub: members.text["sub"@],
                    user_name: members.text["user_name"@],
                    exp: members.integers["exp"@],
                },
            )
        },
    }
}

/// The mathematical value of a decoding result.
pub open spec fn claims_result_view(result: Result<Claims, ClientError>) -> Result<
    ClaimsView,
    ClientErrorView,
> {
    match result {
        Ok(claims) => Ok(claims@),
        Err(error) => Err(error@),
    }
}

fn decode_error(reason: &str) -> (error: ClientError)
    ensures
        error@ == decode_failure(reason@),
{
    ClientError::DecodeError(String::from_str("Failed to decode token: ").concat(reason))
}

/// Builds the claims from the three members read out of a payload, or names
/// the first one that is missing.
pub fn claims_from_members(
    sub: Option<String>,
    user_name: Option<String>,
    exp: Option<i64>,
) -> (result: Result<Claims, ClientError>)
    ensures
        match (sub, user_name, exp) {
            (Some(s), Some(u), Some(e)) => result matches Ok(claims) && claims@ == (ClaimsView {
                sub: s@,
                user_name: u@,
                exp: e,
            }),
            (None, _, _) => result matches Err(error) && error@ == decode_failure(
                "missing or invalid field `sub`"@,
            ),
            (Some(_), None, _) => result matches Err(error) && error@ == decode_failure(
                "missing or invalid field `user_name`"@,
            ),
            (Some(_), Some(_), None) => result matches Err(error) && error@ == decode_failure(
                "missing or invalid field `exp`"@,
            ),
        },
{
    let sub = match sub {
        Some(sub) => sub,
        None => return Err(decode_error("missing or invalid field `sub`")),
    };
    let user_name = match user_name {
        Some(user_name) => user_name,
        None => return Err(decode_error("missing or invalid field `user_name`")),
    };
    match exp {
        Some(exp) => Ok(Claims { sub, user_name, exp }),
        None => Err(decode_error("missing or invalid field `exp`")),
    }
}

/// Decodes a token without checking its signature.
///
/// Fails when the token is not three dot-separated base64url parts with a
/// readable header and a JSON payload, or when the payload lacks one of the
/// claims.
pub fn decode_token_without_validation(token: &str) -> (result: Result<Claims, ClientError>)
    ensures
        claims_result_view(result) == decoded_claims(token@),
{
    match insecure_decode_payload(token) {
        Err(reason) => Err(decode_error(reason.as_str())),
        Ok(payload) => {
            let sub = json_text_member(&payload, "sub");
            let user_name = json_text_member(&payload, "user_name");
            let exp = json_integer_member(&payload, "exp");
            claims_from_members(sub, user_name, exp)
        },
    }
}

/// The identifier of the user an access token was issued to: the value of
/// its `sub` claim, or zero (the nil identifier) where the token does not
/// decode or the claim is no identifier.
pub open spec fn token_user_id(token: Seq<char>) -> u128 {
    match decoded_claims(token) {
        Ok(claims) => match parsed_uuid(claims.sub) {
            Ok(id) => id,
            Err(_) => 0,
        },
        Err(_) => 0,
    }
}

/// Reads the identifier of the user out of an access token.
pub fn user_id_from_token(token: &str) -> (id: u128)
    ensures
        id == token_user_id(token@),
{
    match decode_token_without_validation(token) {
        Ok(claims) => match parse_uuid(claims.sub.as_str()) {
            Ok(id) => id,
            Err(_) => 0,
        },
        Err(_) => 0,
    }
}

} // verus!
