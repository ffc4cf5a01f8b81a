//! Password hashing and verification with bcrypt semantics: a slow, salted,
//! one-way hash whose salt and cost are embedded in the stored hash string.

use vstd::prelude::*;

verus! {

/// Error from password hashing or verification: the stored hash is malformed,
/// or the hashing backend could not draw a salt. Callers treat it exactly
/// like "credentials do not match", so nothing leaks about why verification
/// failed.
#[derive(Clone, Copy, Debug, PartialEq, Eq, Structural)]
pub struct VerificationError;

/// The outcome of bcrypt verification for a (plaintext, stored hash) pair:
/// `None` when the stored hash cannot be parsed as a bcrypt hash, otherwise
/// `Some` of whether the plaintext matches. The outcome is a function of the
/// two arguments alone.
pub uninterp spec fn bcrypt_check(plaintext: Seq<char>, stored_hash: Seq<char>) -> Option<bool>;

/// What [`verify`] returns for a given (plaintext, stored hash) pair.
pub open spec fn verify_result(plaintext: Seq<char>, stored_hash: Seq<char>) -> Result<
    bool,
    VerificationError,
> {
    match bcrypt_check(plaintext, stored_hash) {
        Some(b) => Ok(b),
        None => Err(VerificationError),
    }
}

/// Relies on bcrypt::verify: it parses the stored hash, recomputes the hash
/// of the plaintext with the salt and cost taken from it, and compares in
/// constant time; it fails exactly when the stored hash does not parse, so
/// its outcome is a function of the two arguments alone.
#[verifier::external_body]
fn bcrypt_verify(plaintext: &str, stored_hash: &str) -> (r: Option<bool>)
    ensures
        r == bcrypt_check(plaintext@, stored_hash@),
{
    match bcrypt::verify(plaintext, stored_hash) {
        Ok(b) => Some(b),
        Err(_) => None,
    }
}

/// Relies on bcrypt::hash with the crate's default cost: the salt is drawn
/// from the operating system's randomness and the call fails only when that
/// source fails; whatever salt is drawn, the produced hash string verifies
/// against the plaintext it was produced from.
#[verifier::external_body]
fn bcrypt_hash(plaintext: &str) -> (r: Option<String>)
    ensures
        r matches Some(h) ==> bcrypt_check(plaintext@, h@) == Some(true),
{
    match bcrypt::hash(plaintext, bcrypt::DEFAULT_COST) {
        Ok(h) => Some(h),
        Err(_) => None,
    }
}

/// Compares a plaintext password against a stored bcrypt hash. A malformed
/// stored hash is reported as an error, which callers must treat identically
/// to a mismatch.
pub fn verify(plaintext: &str, stored_hash: &str) -> (r: Result<bool, VerificationError>)
    ensures
        r == verify_result(plaintext@, stored_hash@),
{
    match bcrypt_verify(plaintext, stored_hash) {
        Some(b) => Ok(b),
        None => Err(VerificationError),
    }
}

/// Hashes a plaintext password for storage, with a fresh random salt; fails
/// only when the randomness source fails.
pub fn hash(plaintext: &str) -> (r: Result<String, VerificationError>)
    ensures
        r matches Ok(h) ==> bcrypt_check(plaintext@, h@) == Some(true),
{
    match bcrypt_hash(plaintext) {
        Some(h) => Ok(h),
        None => Err(VerificationError),
    }
}

/// Law: hashing and then verifying with the original plaintext returns true.
/// Every hash that [`hash`] can return for a plaintext satisfies this
/// lemma's premise, so [`verify`] accepts it.
pub proof fn lemma_hash_verify_round_trip(plaintext: Seq<char>, stored_hash: Seq<char>)
    requires
        bcrypt_check(plaintext, stored_hash) == Some(true),
    ensures
        verify_result(plaintext, stored_hash) == Ok::<bool, VerificationError>(true),
{
}

} // verus!
