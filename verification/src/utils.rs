//! Password hashing, through the external one-way hasher.

use argon2::PasswordHasher;
use argon2::PasswordVerifier;
use vstd::prelude::*;

verus! {

/// The external hasher's error type, carried through unread.
#[verifier::external_type_specification]
#[verifier::external_body]
pub struct ExPasswordHashError(argon2::password_hash::Error);

/// Whether the external verifier accepts this plaintext against this
/// stored hash. The outcome is a function of the two texts alone; nothing
/// further is assumed of it beyond what [`hash_password`] states.
pub uninterp spec fn password_matches(password: Seq<char>, hash: Seq<char>) -> bool;

/// Relies on argon2's `PasswordHasher::hash_password`: it salts with fresh
/// randomness, so two calls on one plaintext differ and nothing is said of
/// the hash text itself; but a hash it returns verifies against the
/// plaintext it was made from.
#[verifier::external_body]
pub fn hash_password(password: &str) -> (r: Result<String, argon2::password_hash::Error>)
    ensures
        r matches Ok(h) ==> password_matches(password@, h@),
{
    let hash = argon2::Argon2::default().hash_password(password.as_bytes())?;
    Ok(hash.to_string())
}

/// Relies on argon2's `PasswordVerifier::verify_password`: it recomputes
/// the hash with the salt and parameters stored in the hash text, so the
/// outcome depends on the plaintext and the hash text alone;
/// [`password_matches`] names the accepting outcomes.
#[verifier::external_body]
pub fn verify_password(password: &str, hash: &str) -> (r: Result<(), argon2::password_hash::Error>)
    ensures
        (r is Ok) == password_matches(password@, hash@),
{
    argon2::Argon2::default().verify_password(password.as_bytes(), hash)
}

} // verus!
