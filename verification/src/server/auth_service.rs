//! Passwords and tokens on the server.

use vstd::prelude::*;
use vstd::string::*;
use argon2::Argon2;
use crate::bindings::clock::{is_utc_instant, unix_now, utc_instant_exists};
use crate::bindings::json::{json_text_member, json_unsigned_member};
use crate::bindings::jwt::{
    decode_hs256,
    hs256_token,
    number_pairs,
    payload_members,
    sign_hs256,
    text_pairs,
    unverified_payload,
    PayloadMembers,
};
use crate::bindings::password::{
    are_argon2_costs,
    argon2_accepts,
    argon2_hash,
    argon2_verify,
    argon2id_hasher,
};

verus! {

/// Memory cost of the password hash, in blocks of 1 KiB: 19 MiB.
pub const HASH_MEMORY_BLOCKS: u32 = 19456;

/// Number of passes of the password hash.
pub const HASH_PASSES: u32 = 2;

/// Number of lanes of the password hash.
pub const HASH_LANES: u32 = 1;

/// Lifetime of a refresh token in seconds: thirty days.
pub const REFRESH_TOKEN_LIFETIME_SECONDS: i64 = 2592000;

/// The claims the server writes into a token and reads back from it.
#[derive(Debug, PartialEq, Eq)]
pub struct Claims {
    /// Identifier of the user.
    pub sub: String,
    /// Name of the user.
    pub user_name: String,
    /// Expiry, in seconds since the Unix epoch.
    pub exp: usize,
    /// Instant of issue, in seconds since the Unix epoch.
    pub iat: u64,
}

/// A count of seconds as a token carries it: a negative count wraps around
/// to the top of the unsigned range.
pub open spec fn wire_seconds(seconds: int) -> u64 {
    if seconds >= 0 {
        seconds as u64
    } else {
        (seconds + 0x1_0000_0000_0000_0000) as u64
    }
}

/// The string members of a token for the given user.
pub open spec fn identity_members(user_id: Seq<char>, user_name: Seq<char>) -> Seq<
    (Seq<char>, Seq<char>),
> {
    seq![("sub"@, user_id), ("user_name"@, user_name)]
}

/// The number members of a token that expires at `exp` and was issued at
/// `iat`.
pub open spec fn time_members(exp: u64, iat: u64) -> Seq<(Seq<char>, u64)> {
    seq![("exp"@, exp), ("iat"@, iat)]
}

/// The token issued at the instant `now` to the given user, to expire
/// `lifetime` seconds later and signed with `secret`. There is none where
/// the calendar has no instant for the expiry, or where signing fails.
pub open spec fn issued_token(
    user_id: Seq<char>,
    user_name: Seq<char>,
    now: i64,
    lifetime: i64,
    secret: Seq<u8>,
) -> Option<Seq<char>> {
    let expiry = now + lifetime;
    if i64::MIN <= expiry <= i64::MAX && is_utc_instant(expiry as i64, 0) {
        hs256_token(
            identity_members(user_id, user_name),
            time_members(wire_seconds(expiry), wire_seconds(now as int)),
            secret,
        )
    } else {
        None
    }
}

/// Whether a payload holds all that the server's claims are made of: the
/// strings `sub` and `user_name`, and the numbers `exp` and `iat`, neither
/// of them negative and `exp` within the range of `usize`.
pub open spec fn holds_claims(members: PayloadMembers) -> bool {
    &&& members.text.contains_key("sub"@)
    &&& members.text.contains_key("user_name"@)
    &&& members.unsigned.contains_key("exp"@)
    &&& members.unsigned["exp"@] <= usize::MAX
    &&& members.unsigned.contains_key("iat"@)
}

/// Whether `claims` are the claims that a payload holds.
pub open spec fn read_from(claims: Claims, members: PayloadMembers) -> bool {
    &&& holds_claims(members)
    &&& members.text["sub"@] == claims.sub@
    &&& members.text["user_name"@] == claims.user_name@
    &&& members.unsigned["exp"@] == claims.exp
    &&& members.unsigned["iat"@] == claims.iat
}

/// Whether `claims` are the claims that the payload of `token` holds.
pub open spec fn carried_by(claims: Claims, token: Seq<char>) -> bool {
    unverified_payload(token) matches Ok(members) && read_from(claims, members)
}

/// Reads the server's claims out of the payload of a token: `None` where
/// one of them is missing or not of its kind.
pub fn claims_from_payload(payload: &serde_json::Value) -> (claims: Option<Claims>)
    ensures
        match claims {
            Some(read) => read_from(read, payload_members(*payload)),
            None => !holds_claims(payload_members(*payload)),
        },
{
    let sub = json_text_member(payload, "sub")?;
    let user_name = json_text_member(payload, "user_name")?;
    let exp = json_unsigned_member(payload, "exp")?;
    let iat = json_unsigned_member(payload, "iat")?;
    if exp > usize::MAX as u64 {
        return None;
    }
    Some(Claims { sub, user_name, exp: exp as usize, iat })
}

fn to_wire_seconds(seconds: i64) -> (wire: u64)
    ensures
        wire == wire_seconds(seconds as int),
{
    if seconds >= 0 {
        seconds as u64
    } else {
        (seconds as i128 + 0x1_0000_0000_0000_0000) as u64
    }
}

fn copy_bytes(bytes: &[u8]) -> (copy: Vec<u8>)
    ensures
        copy@ == bytes@,
{
    let mut copy: Vec<u8> = Vec::new();
    let mut at: usize = 0;
    while at < bytes.len()
        invariant
            at <= bytes.len(),
            copy@ == bytes@.take(at as int),
        decreases bytes.len() - at,
    {
        copy.push(bytes[at]);
        assert(bytes@.take(at + 1) =~= bytes@.take(at as int).push(bytes@[at as int]));
        at += 1;
    }
    assert(bytes@.take(at as int) =~= bytes@);
    copy
}

/// Hashes and checks passwords, issues and checks tokens.
pub struct AuthService {
    password_hasher: Argon2<'static>,
    token_expiry_seconds: i64,
    secret: Vec<u8>,
}

impl AuthService {
    /// Lifetime of the access tokens, in seconds.
    pub closed spec fn token_lifetime(&self) -> i64 {
        self.token_expiry_seconds
    }

    /// The secret the tokens are signed with.
    pub closed spec fn signing_secret(&self) -> Seq<u8> {
        self.secret@
    }

    /// A service whose access tokens live `token_expiry_seconds` and are
    /// signed with `secret`. Passwords are hashed with Argon2id at 19 MiB of
    /// memory, two passes and one lane.
    pub fn new(token_expiry_seconds: i64, secret: &[u8]) -> (service: Self)
        ensures
            service.token_lifetime() == token_expiry_seconds,
            service.signing_secret() == secret@,
    {
        assert(are_argon2_costs(HASH_MEMORY_BLOCKS, HASH_PASSES, HASH_LANES));
        AuthService {
            password_hasher: argon2id_hasher(HASH_MEMORY_BLOCKS, HASH_PASSES, HASH_LANES),
            token_expiry_seconds,
            secret: copy_bytes(secret),
        }
    }

    /// Hashes a password under a fresh random salt. Returns the hash as a
    /// PHC string, which names algorithm, costs and salt, or the text of
    /// the error.
    pub fn hash_password(&self, password: &str) -> (hashed: Result<String, String>)
        ensures
            hashed matches Ok(hash) ==> argon2_accepts(password@, hash@),
    {
        argon2_hash(&self.password_hasher, password)
    }

    /// Whether `password` matches `password_hash`. A text that is no
    /// password hash matches nothing.
    pub fn verify_password(&self, password: &str, password_hash: &str) -> (accepted: bool)
        ensures
            accepted == argon2_accepts(password@, password_hash@),
    {
        argon2_verify(&self.password_hasher, password, password_hash)
    }

    fn issue(&self, user_id: &str, user_name: &str, now: i64, lifetime: i64) -> (token: Option<
        String,
    >)
        ensures
            match issued_token(user_id@, user_name@, now, lifetime, self.signing_secret()) {
                Some(signed) => token matches Some(t) && t@ == signed,
                None => token is None,
            },
    {
        let expiry: i128 = now as i128 + lifetime as i128;
        if expiry < i64::MIN as i128 || expiry > i64::MAX as i128 {
            return None;
        }
        let expiry = expiry as i64;
        if !utc_instant_exists(expiry, 0) {
            return None;
        }
        let mut text: Vec<(String, String)> = Vec::new();
        text.push((String::from_str("sub"), String::from_str(user_id)));
        text.push((String::from_str("user_name"), String::from_str(user_name)));
        let mut numbers: Vec<(String, u64)> = Vec::new();
        numbers.push((String::from_str("exp"), to_wire_seconds(expiry)));
        numbers.push((String::from_str("iat"), to_wire_seconds(now)));
        assert(text_pairs(text@) =~= identity_members(user_id@, user_name@));
        assert(number_pairs(numbers@) =~= time_members(
            wire_seconds(expiry as int),
            wire_seconds(now as int),
        ));
        sign_hs256(&text, &numbers, self.secret.as_slice())
    }

    /// The access token issued to the given user at the instant `now`.
    pub fn generate_token_at(&self, user_id: &str, user_name: &str, now: i64) -> (token: Option<
        String,
    >)
        ensures
            match issued_token(
                user_id@,
                user_name@,
                now,
                self.token_lifetime(),
                self.signing_secret(),
            ) {
                Some(signed) => token matches Some(t) && t@ == signed,
                None => token is None,
            },
    {
        self.issue(user_id, user_name, now, self.token_expiry_seconds)
    }

    /// An access token for the given user, issued now.
    pub fn generate_token(&self, user_id: &str, user_name: &str) -> (token: Option<String>)
        ensures
            exists|now: i64|
                now >= 0 && match #[trigger] issued_token(
                    user_id@,
                    user_name@,
                    now,
                    self.token_lifetime(),
                    self.signing_secret(),
                ) {
                    Some(signed) => token matches Some(t) && t@ == signed,
                    None => token is None,
                },
    {
        let now = unix_now();
        self.generate_token_at(user_id, user_name, now)
    }

    /// The refresh token issued to the given user at the instant `now`. It
    /// lives thirty days.
    pub fn generate_refresh_token_at(&self, user_id: &str, user_name: &str, now: i64) -> (token:
        Option<String>)
        ensures
            match issued_token(
                user_id@,
                user_name@,
                now,
                REFRESH_TOKEN_LIFETIME_SECONDS,
                self.signing_secret(),
            ) {
                Some(signed) => token matches Some(t) && t@ == signed,
                None => token is None,
            },
    {
        self.issue(user_id, user_name, now, REFRESH_TOKEN_LIFETIME_SECONDS)
    }

    /// A refresh token for the given user, issued now.
    pub fn generate_refresh_token(&self, user_id: &str, user_name: &str) -> (token: Option<String>)
        ensures
            exists|now: i64|
                now >= 0 && match #[trigger] issued_token(
                    user_id@,
                    user_name@,
                    now,
                    REFRESH_TOKEN_LIFETIME_SECONDS,
                    self.signing_secret(),
                ) {
                    Some(signed) => token matches Some(t) && t@ == signed,
                    None => token is None,
                },
    {
        let now = unix_now();
        self.generate_refresh_token_at(user_id, user_name, now)
    }

    /// Checks a token and returns its claims: `None` for a token that is
    /// not signed with the secret, has expired, or lacks one of the claims.
    /// Claims that are returned are those the token carries.
    pub fn verify_token(&self, token: &str) -> (verified: Option<Claims>)
        ensures
            verified matches Some(claims) ==> carried_by(claims, token@),
            unverified_payload(token@) matches Ok(members) && !holds_claims(members)
                ==> verified is None,
            unverified_payload(token@) is Err ==> verified is None,
    {
        let payload = decode_hs256(token, self.secret.as_slice())?;
        claims_from_payload(&payload)
    }
}

} // verus!
