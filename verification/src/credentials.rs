//! Password hashes and session tokens.

use vstd::prelude::*;

verus! {

/// The outcome of checking `password` against a stored bcrypt `hash`:
/// `Some(true)` when it matches, `Some(false)` when it does not, and `None`
/// when the hash cannot be read as a bcrypt hash.
pub uninterp spec fn bcrypt_verdict(password: Seq<char>, hash: Seq<char>) -> Option<bool>;

/// Checks a password against a stored hash.
///
/// Trusted: calls `bcrypt::verify`, which splits the hash into cost, salt and
/// digest, hashes the password again with that cost and salt, and compares
/// the digests. Its result depends on the two texts alone; an error of the
/// call is reported as `None`.
#[verifier::external_body]
pub(crate) fn check_password(password: &str, hash: &str) -> (verdict: Option<bool>)
    ensures
        verdict == bcrypt_verdict(password@, hash@),
{
    bcrypt::verify(password, hash).ok()
}

/// The length of a stored password hash: the version and the two-digit
/// cost between dollar signs, then 22 characters of salt and 31 of digest.
pub const HASH_LENGTH: usize = 60;

/// Hashes a password for storage, with a fresh random salt.
///
/// Trusted: calls `bcrypt::hash` with the crate's default cost. The salt is
/// random, so two calls differ; whatever hash comes back, `bcrypt::verify`
/// accepts the same password against it, because it repeats the computation
/// with the cost and salt that the hash text carries. The hash is formatted
/// as `$2b$12$` followed by the salt and the digest in base 64, which makes
/// 60 characters. A failure to obtain randomness is reported by its
/// description.
#[verifier::external_body]
pub(crate) fn hash_password(password: &str) -> (hashed: Result<String, String>)
    ensures
        hashed matches Ok(hash) ==> bcrypt_verdict(password@, hash@) == Some(true) && hash@.len() == HASH_LENGTH,
{
    match bcrypt::hash(password, bcrypt::DEFAULT_COST) {
        Ok(hash) => Ok(hash),
        Err(error) => Err(error.to_string()),
    }
}

/// The length of a session token: a UUID in its hyphenated form.
pub const TOKEN_LENGTH: usize = 36;

/// Mints a fresh opaque session token.
///
/// Trusted: calls `uuid::Uuid::new_v4` and formats the result, which yields
/// the hyphenated form of 32 hexadecimal digits and four hyphens. The value
/// is random, so only its length is stated.
#[verifier::external_body]
pub(crate) fn mint_token() -> (token: String)
    ensures
        token@.len() == TOKEN_LENGTH,
{
    uuid::Uuid::new_v4().to_string()
}

/// Whether a password check counts as passed: only a definite match does.
pub open spec fn accepted(verdict: Option<bool>) -> bool {
    verdict == Some(true)
}

/// Whether a password check counts as passed. A hash that cannot be read
/// counts as a mismatch.
pub fn password_accepted(verdict: Option<bool>) -> (ok: bool)
    ensures
        ok == accepted(verdict),
{
    match verdict {
        Some(matched) => matched,
        None => false,
    }
}

/// Whether `password` opens the account whose stored hash is `hash`.
pub fn verify_password(password: &str, hash: &str) -> (ok: bool)
    ensures
        ok == accepted(bcrypt_verdict(password@, hash@)),
{
    password_accepted(check_password(password, hash))
}

} // verus!
