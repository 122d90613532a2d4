//! The password hasher: memory-hard hashing with a fresh random salt per
//! call, both hash and salt persisted as self-describing encoded strings.
//!
//! The salt is drawn from the operating system's randomness source, so two
//! hashes of the same password differ; that non-determinism is intentional
//! and required.  What can be said of every outcome is said here: the
//! encoded hash always verifies against the password it was derived from.

use vstd::prelude::*;

use argon2::password_hash::rand_core::OsRng;
use argon2::password_hash::PasswordHash;
use argon2::password_hash::PasswordHasher;
use argon2::password_hash::PasswordVerifier;
use argon2::password_hash::SaltString;

use crate::errors::SignupFlowErrors;
use crate::models::HashedPasswordRecord;

verus! {

/// Whether `password` matches `encoded_hash`, as the verifier primitive
/// decides it from the two strings alone.
pub uninterp spec fn password_verifies(password: Seq<char>, encoded_hash: Seq<char>) -> bool;

/// Relies on `argon2::Argon2::verify_password` (through `PasswordVerifier`)
/// and `PasswordHash::new`: the hash string carries its own algorithm,
/// version, parameters and salt, so whether a password matches is a
/// function of the two strings alone; a string that does not parse as a
/// hash matches nothing.
#[verifier::external_body]
fn argon2_verify(password: &String, encoded_hash: &String) -> (r: bool)
    ensures
        r == password_verifies(password@, encoded_hash@),
{
    match PasswordHash::new(encoded_hash.as_str()) {
        Ok(parsed) => {
            argon2::Argon2::default().verify_password(password.as_bytes(), &parsed).is_ok()
        },
        Err(_) => false,
    }
}

/// Relies on `argon2::Argon2::hash_password` (through `PasswordHasher`)
/// with a salt freshly generated by `SaltString::generate` from `OsRng`:
/// on success the returned PHC string encodes algorithm, parameters, salt
/// and digest, and verifying it against the same password succeeds; both
/// encodings are non-empty.  The salt is random, so nothing else is
/// promised of the strings themselves.
#[verifier::external_body]
fn argon2_hash_with_fresh_salt(password: &String) -> (r: Option<HashedPasswordRecord>)
    ensures
        r matches Some(rec) ==> password_verifies(password@, rec.hash@) && rec.hash@.len() > 0
            && rec.salt@.len() > 0,
{
    let salt = SaltString::generate(&mut OsRng);
    let argon = argon2::Argon2::default();
    match argon.hash_password(password.as_bytes(), &salt) {
        Ok(hash) => Some(HashedPasswordRecord { hash: hash.to_string(), salt: salt.to_string() }),
        Err(_) => None,
    }
}

/// Hash a submitted plaintext password with a fresh random salt.
///
/// Succeeds exactly when the hashing primitive does; a primitive failure
/// (resource exhaustion and the like) is fatal to the signup attempt and
/// surfaces as `HashingFailure`, never retried.  Password strength is
/// deliberately not checked.
pub fn hash_incoming_password(password: String) -> (r: Result<
    HashedPasswordRecord,
    SignupFlowErrors,
>)
    ensures
        match r {
            Ok(rec) => password_verifies(password@, rec.hash@) && rec.hash@.len() > 0
                && rec.salt@.len() > 0,
            Err(e) => e == SignupFlowErrors::HashingFailure,
        },
{
    match argon2_hash_with_fresh_salt(&password) {
        Some(rec) => Ok(rec),
        None => Err(SignupFlowErrors::HashingFailure),
    }
}

/// Check a submitted password against a stored encoded hash.
pub fn verify_user_password(password: &String, encoded_hash: &String) -> (r: bool)
    ensures
        r == password_verifies(password@, encoded_hash@),
{
    argon2_verify(password, encoded_hash)
}

} // verus!
