//! Salted, memory-hard password hashing and verification (Argon2id with the
//! default parameters, PHC string encoding).

use argon2::password_hash::{PasswordHasher, PasswordVerifier};
use vstd::prelude::*;

verus! {

/// The PHC string that Argon2 with its default parameters produces for a
/// password and a B64 salt, or `None` where hashing fails (a salt that is not
/// valid B64 or of a length outside the accepted range, for instance).
pub uninterp spec fn argon2_encoded(password: Seq<char>, salt: Seq<char>) -> Option<Seq<char>>;

/// Whether Argon2 accepts a password for a stored hash string: `None` where
/// the string is not a PHC string, else whether the recomputed digest matches.
pub uninterp spec fn argon2_accepts(hash: Seq<char>, password: Seq<char>) -> Option<bool>;

/// Whether a character belongs to the B64 alphabet: letters, digits, `+` and
/// `/`.
pub open spec fn is_b64_char(c: char) -> bool {
    ('A' <= c && c <= 'Z') || ('a' <= c && c <= 'z') || ('0' <= c && c <= '9') || c == '+' || c
        == '/'
}

/// The shape of a salt that the generator draws: sixteen random bytes in
/// B64 without padding, which makes 22 characters.
pub open spec fn is_fresh_salt(salt: Seq<char>) -> bool {
    &&& salt.len() == 22
    &&& forall|i: int| 0 <= i < salt.len() ==> is_b64_char(#[trigger] salt[i])
}

/// A salt of the generator's shape.
pub open spec fn sample_salt() -> Seq<char> {
    Seq::new(22, |i: int| 'A')
}

/// There are salts of the generator's shape.
pub proof fn lemma_fresh_salts_exist()
    ensures
        is_fresh_salt(sample_salt()),
{
}

/// Hashing failed: the salt could not be used or the key derivation reported
/// an error.
#[derive(Debug, Clone, Copy, PartialEq, Eq, Structural)]
pub enum HashError {
    Hashing,
}

#[verifier::external_type_specification]
#[verifier::external_body]
pub struct ExPasswordHashError(argon2::password_hash::Error);

/// `SaltString::generate` on the operating system's random source (`OsRng`):
/// a fresh B64 salt. Its value differs from call to call; all that is claimed
/// of it is its shape, sixteen bytes encoded as 22 characters of the B64
/// alphabet. The generator stops the process where the operating system gives
/// it no random bytes.
#[verifier::external_body]
fn fresh_salt() -> (salt: String)
    ensures
        is_fresh_salt(salt@),
{
    argon2::password_hash::SaltString::generate(&mut argon2::password_hash::rand_core::OsRng)
        .as_str()
        .to_string()
}

/// `PasswordHasher::hash_password` of `Argon2::default()`, after
/// `SaltString::from_b64` on the salt. The contract gives the outcome its
/// name, as a function of the password and the salt, and says of a hash that
/// was made what the crate documents as its use: verifying the same password
/// against it succeeds, since the verifier recomputes the digest with the
/// algorithm, version, parameters and salt that the string holds.
#[verifier::external_body]
fn argon2_hash(password: &str, salt: &str) -> (r: Result<String, argon2::password_hash::Error>)
    ensures
        match argon2_encoded(password@, salt@) {
            Some(encoded) => r matches Ok(h) && h@ == encoded,
            None => r is Err,
        },
        r matches Ok(h) ==> argon2_accepts(h@, password@) == Some(true),
{
    let salt = argon2::password_hash::SaltString::from_b64(salt)?;
    Ok(argon2::Argon2::default().hash_password(password.as_bytes(), &salt)?.to_string())
}

/// `PasswordHash::new` on the stored string, then
/// `PasswordVerifier::verify_password` of `Argon2::default()`: the parse
/// error where the string is no PHC string, else whether the password was
/// accepted.
#[verifier::external_body]
fn argon2_check(hash: &str, password: &str) -> (r: Result<bool, argon2::password_hash::Error>)
    ensures
        match argon2_accepts(hash@, password@) {
            Some(accepted) => r matches Ok(b) && b == accepted,
            None => r is Err,
        },
{
    let parsed = argon2::password_hash::PasswordHash::new(hash)?;
    Ok(argon2::Argon2::default().verify_password(password.as_bytes(), &parsed).is_ok())
}

/// What hashing a password with a given salt yields.
pub open spec fn spec_hash_with_salt(password: Seq<char>, salt: Seq<char>) -> Result<
    Seq<char>,
    HashError,
> {
    match argon2_encoded(password, salt) {
        Some(encoded) => Ok(encoded),
        None => Err(HashError::Hashing),
    }
}

/// Whether a password verifies against a stored hash: a string that does not
/// parse counts as a failed verification, never as an error.
pub open spec fn spec_verify_password(hash: Seq<char>, password: Seq<char>) -> bool {
    argon2_accepts(hash, password) == Some(true)
}

/// The view of a hashing result.
pub open spec fn hash_result_view(r: Result<String, HashError>) -> Result<Seq<char>, HashError> {
    match r {
        Ok(h) => Ok(h@),
        Err(e) => Err(e),
    }
}

/// Hashes a password with the salt given. A hash that comes back verifies
/// for the password it was made from.
pub fn hash_password_with_salt(password: &str, salt: &str) -> (r: Result<String, HashError>)
    ensures
        hash_result_view(r) == spec_hash_with_salt(password@, salt@),
        r matches Ok(h) ==> spec_verify_password(h@, password@),
{
    match argon2_hash(password, salt) {
        Ok(h) => Ok(h),
        Err(_) => Err(HashError::Hashing),
    }
}

/// Hashes a password with a fresh random salt. The salt is not known
/// beforehand, so the contract says that some salt of the generator's shape
/// explains the outcome. A hash that comes back verifies for the password it
/// was made from.
pub fn hash_password(password: &str) -> (r: Result<String, HashError>)
    ensures
        exists|salt: Seq<char>|
            is_fresh_salt(salt) && hash_result_view(r) == #[trigger] spec_hash_with_salt(
                password@,
                salt,
            ),
        r matches Ok(h) ==> spec_verify_password(h@, password@),
{
    let salt = fresh_salt();
    hash_password_with_salt(password, salt.as_str())
}

/// Verifies a password against a stored hash.
pub fn verify_password(hash: &str, password: &str) -> (ok: bool)
    ensures
        ok == spec_verify_password(hash@, password@),
{
    match argon2_check(hash, password) {
        Ok(accepted) => accepted,
        Err(_) => false,
    }
}

} // verus!
