//! Password hashing with Argon2id.

use vstd::prelude::*;
use crate::error::AuthError;
use crate::text::chars_of;
use argon2::password_hash::rand_core::OsRng;
use argon2::password_hash::{PasswordHash, PasswordHasher, PasswordVerifier, SaltString};
use argon2::Argon2;

verus! {

/// The fewest characters a password may have.
pub const MIN_PASSWORD_CHARS: usize = 8;

/// The longest password, in bytes, that Argon2 hashes (`argon2::MAX_PWD_LEN`).
pub const MAX_PASSWORD_BYTES: usize = 0xFFFF_FFFF;

/// Whether `argon2::password_hash::PasswordHash::new` accepts a text as a
/// PHC hash string.
pub uninterp spec fn phc_string_parses(hash: Seq<char>) -> bool;

/// Whether `Argon2::default().verify_password` accepts a password (its UTF-8
/// bytes) against a parsed PHC hash string.
pub uninterp spec fn argon2_accepts(password: Seq<char>, hash: Seq<char>) -> bool;

/// `Argon2::default().hash_password` with a fresh random salt, written as a
/// PHC string. The salt is random, so the text is not known; what is known is
/// that the text parses again and that verification accepts the same
/// password against it (verification recomputes the hash with the salt and
/// parameters the text carries).
#[verifier::external_body]
fn argon2_hash_fresh_salt(password: &str) -> (r: Option<String>)
    ensures
        r matches Some(h) ==> phc_string_parses(h@) && argon2_accepts(password@, h@),
        byte_len(password) <= MAX_PASSWORD_BYTES ==> r is Some,
{
    let salt = SaltString::generate(&mut OsRng);
    match Argon2::default().hash_password(password.as_bytes(), &salt) {
        Ok(hash) => Some(hash.to_string()),
        Err(_) => None,
    }
}

/// `PasswordHash::new(hash)` and then `Argon2::default().verify_password`:
/// `None` when the text is no PHC string, else whether the password matches.
#[verifier::external_body]
fn argon2_verify(password: &str, hash: &str) -> (r: Option<bool>)
    ensures
        r == (if phc_string_parses(hash@) {
            Some(argon2_accepts(password@, hash@))
        } else {
            None
        }),
{
    match PasswordHash::new(hash) {
        Ok(parsed) => Some(Argon2::default().verify_password(password.as_bytes(), &parsed).is_ok()),
        Err(_) => None,
    }
}

/// The byte length of a text in UTF-8, as `str::len` reports it.
pub open spec fn byte_len(s: &str) -> usize {
    s.len()
}

/// What a successful hash promises: it parses, and it accepts the password.
pub open spec fn is_hash_of(password: Seq<char>, hash: Seq<char>) -> bool {
    phc_string_parses(hash) && argon2_accepts(password, hash)
}

/// The outcome of verifying a password against a stored hash.
pub open spec fn verify_outcome(password: Seq<char>, hash: Seq<char>) -> Result<bool, AuthError> {
    if phc_string_parses(hash) {
        Ok(argon2_accepts(password, hash))
    } else {
        Err(AuthError::InvalidPassword)
    }
}

/// Password hashing service using Argon2id.
pub struct PasswordService;

impl PasswordService {
    /// Hashes a password of at least 8 characters with a fresh salt; Argon2
    /// hashes any password of at most `MAX_PASSWORD_BYTES` bytes.
    pub fn hash(password: &str) -> (r: Result<String, AuthError>)
        ensures
            password@.len() < 8 <==> r == Err::<String, AuthError>(AuthError::WeakPassword),
            password@.len() >= 8 && byte_len(password) <= MAX_PASSWORD_BYTES ==> r is Ok,
            r matches Err(e) ==> (e == AuthError::WeakPassword || e == AuthError::InvalidPassword),
            r matches Ok(h) ==> is_hash_of(password@, h@),
    {
        if chars_of(password).len() < MIN_PASSWORD_CHARS {
            return Err(AuthError::WeakPassword);
        }
        match argon2_hash_fresh_salt(password) {
            Some(h) => Ok(h),
            None => Err(AuthError::InvalidPassword),
        }
    }

    /// Verifies a password against a stored hash.
    pub fn verify(password: &str, hash: &str) -> (r: Result<bool, AuthError>)
        ensures
            r == verify_outcome(password@, hash@),
    {
        match argon2_verify(password, hash) {
            Some(ok) => Ok(ok),
            None => Err(AuthError::InvalidPassword),
        }
    }
}

/// A password verifies against any hash that hashing it produced.
pub proof fn lemma_hash_then_verify(password: Seq<char>, hash: Seq<char>)
    requires
        is_hash_of(password, hash),
    ensures
        verify_outcome(password, hash) == Ok::<bool, AuthError>(true),
{
}

} // verus!
