//! Password hashing with Argon2.

use vstd::prelude::*;
use argon2::Argon2;

verus! {

#[verifier::external_type_specification]
#[verifier::external_body]
pub struct ExArgon2<'key>(Argon2<'key>);

/// Whether the costs are ones that `argon2::Params::new` accepts: at least
/// eight blocks of memory for each lane, at least one pass, and between one
/// and 2^24 - 1 lanes.
pub open spec fn are_argon2_costs(m_cost: u32, t_cost: u32, p_cost: u32) -> bool {
    &&& 1 <= p_cost <= 0xFF_FFFF
    &&& 8 * p_cost <= m_cost
    &&& 1 <= t_cost
}

/// Whether `password` matches the hash written in `password_hash`: whether
/// the text parses as a PHC string (`PasswordHash::new`) and
/// `verify_password` of a keyless `Argon2` accepts the password for it. The
/// algorithm, its version, the costs and the salt are those written in the
/// hash.
pub uninterp spec fn argon2_accepts(password: Seq<char>, password_hash: Seq<char>) -> bool;

/// Builds the keyless Argon2id hasher, version 0x13, with the given costs
/// (`Params::new` with the default output length, `Argon2::new`).
#[verifier::external_body]
pub(crate) fn argon2id_hasher(m_cost: u32, t_cost: u32, p_cost: u32) -> (hasher: Argon2<'static>)
    requires
        are_argon2_costs(m_cost, t_cost, p_cost),
{
    let params = argon2::Params::new(m_cost, t_cost, p_cost, None).expect("valid Argon2 costs");
    Argon2::new(argon2::Algorithm::Argon2id, argon2::Version::V0x13, params)
}

/// Hashes `password` with `PasswordHasher::hash_password` under a salt
/// drawn from the operating system (`SaltString::generate` with `OsRng`)
/// and prints the hash as a PHC string, or returns the error's text. The
/// salt, and with it the hash, differs from call to call; the program stops
/// if the operating system gives no random bytes. The hash records the
/// algorithm, the costs and the salt it was made with, so verification
/// recomputes it from the same password.
#[verifier::external_body]
pub(crate) fn argon2_hash(hasher: &Argon2<'static>, password: &str) -> (hashed: Result<
    String,
    String,
>)
    ensures
        match hashed {
            Ok(hash) => argon2_accepts(password@, hash@),
            Err(_) => true,
        },
{
    let salt = argon2::password_hash::SaltString::generate(
        &mut argon2::password_hash::rand_core::OsRng,
    );
    match argon2::PasswordHasher::hash_password(hasher, password.as_bytes(), &salt) {
        Ok(hash) => Ok(hash.to_string()),
        Err(error) => Err(error.to_string()),
    }
}

/// Parses `password_hash` with `argon2::PasswordHash::new` and asks
/// `PasswordVerifier::verify_password` whether `password` matches it; a text
/// that does not parse matches nothing. The hasher must be keyless, as
/// [`argon2id_hasher`] makes it: the answer then depends on the two texts
/// alone.
#[verifier::external_body]
pub(crate) fn argon2_verify(hasher: &Argon2<'static>, password: &str, password_hash: &str) -> (accepted:
    bool)
    ensures
        accepted == argon2_accepts(password@, password_hash@),
{
    argon2::PasswordHash::new(password_hash).map_or(
        false,
        |parsed| argon2::PasswordVerifier::verify_password(hasher, password.as_bytes(), &parsed).is_ok(),
    )
}

} // verus!
