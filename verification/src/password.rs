//! Credential hashing and verification.
//!
//! Passwords are hashed with a memory-hard, salted scheme into a
//! self-describing digest string; verification re-derives the hash from the
//! parameters embedded in the digest and compares in constant time.  The
//! two calls into the hashing library are the only trusted steps; what each
//! returns is named by the spec functions below, and everything built on
//! top is verified against those names.

use vstd::prelude::*;
use crate::errors::{AppError, AppErrorView};
use argon2::Argon2;
use argon2::password_hash::{PasswordHash, PasswordHasher, PasswordVerifier, SaltString};
use argon2::password_hash::rand_core::OsRng;

verus! {

/// Whether the verifier accepts `password` against `digest`: the digest
/// parses, and re-deriving the hash with the salt and parameters embedded
/// in it reproduces its hash value.  A function of the two strings alone.
pub uninterp spec fn password_verifies(password: Seq<char>, digest: Seq<char>) -> bool;

/// Whether `digest` is a well-formed self-describing hash string.
pub uninterp spec fn digest_parses(digest: Seq<char>) -> bool;

/// Relies on `SaltString::generate` and `Argon2::hash_password`: hashing
/// with a fresh salt yields a well-formed digest string, and, as the
/// library documents, verifying the same password against that digest
/// succeeds.  The salt is random, so nothing else is assumed of the text.
/// With the default parameters and a generated salt the only failing input
/// is a password over the library's cap of 2^32 - 1 bytes; a character
/// takes at most four bytes, so under 2^30 characters success is owed.
#[verifier::external_body]
fn argon2_hash(password_string: &str) -> (r: Result<String, String>)
    ensures
        r matches Ok(digest) ==> digest_parses(digest@) && password_verifies(
            password_string@,
            digest@,
        ),
        password_string@.len() < 0x4000_0000 ==> r is Ok,
{
    let salt = SaltString::generate(&mut OsRng);
    match Argon2::default().hash_password(password_string.as_bytes(), &salt) {
        Ok(h) => Ok(h.to_string()),
        Err(e) => Err(e.to_string()),
    }
}

/// Relies on `PasswordHash::new` and `Argon2::verify_password`: parsing
/// succeeds exactly on well-formed digests, and verification of a parsed
/// digest is a pure function of the password and the digest text — the
/// algorithm, version, parameters and salt all come from the digest
/// itself, and any verification error counts as a mismatch.
#[verifier::external_body]
fn argon2_verify(password_string: &str, password_hashed: &str) -> (r: Option<bool>)
    ensures
        r is Some <==> digest_parses(password_hashed@),
        r matches Some(b) ==> b == password_verifies(password_string@, password_hashed@),
{
    match PasswordHash::new(password_hashed) {
        Ok(parsed) => Some(
            Argon2::default().verify_password(password_string.as_bytes(), &parsed).is_ok(),
        ),
        Err(_) => None,
    }
}

pub struct Encryption;

impl Encryption {
    /// Hash a password into a fresh salted digest.  On success the digest
    /// is well formed and verifies against the password that produced it;
    /// success is owed for any password of fewer than 2^30 characters.
    pub fn hash_password(password_string: &str) -> (r: Result<String, AppError>)
        ensures
            r matches Ok(digest) ==> digest_parses(digest@) && password_verifies(
                password_string@,
                digest@,
            ),
            password_string@.len() < 0x4000_0000 ==> r is Ok,
            r matches Err(e) ==> e@ is HashingError,
    {
        match argon2_hash(password_string) {
            Ok(digest) => Ok(digest),
            Err(m) => Err(
                AppError::HashingError(
                    String::from_str("Password hashing error: ").concat(m.as_str()),
                ),
            ),
        }
    }

    /// Check a password against a stored digest.  The outcome is a pure
    /// function of the two arguments: `Ok` exactly when the digest parses,
    /// with the verifier's boolean; a malformed digest is one fixed,
    /// distinct failure, never a quiet "wrong password".
    pub fn verify_password(password_string: &str, password_hashed: &str) -> (r: Result<
        bool,
        AppError,
    >)
        ensures
            r is Ok <==> digest_parses(password_hashed@),
            r matches Ok(b) ==> b == password_verifies(password_string@, password_hashed@),
            r matches Err(e) ==> e@ == AppErrorView::HashingError(
                "Password hashing error: malformed password hash"@,
            ),
    {
        match argon2_verify(password_string, password_hashed) {
            Some(b) => Ok(b),
            None => Err(
                AppError::HashingError(
                    String::from_str("Password hashing error: malformed password hash"),
                ),
            ),
        }
    }
}

} // verus!
