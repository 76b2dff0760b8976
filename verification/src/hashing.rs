//! Credential hashing: salted password hashes in PHC string form, produced
//! and checked by the argon2 crate behind trusted wrappers.

use vstd::prelude::*;

verus! {

/// Passwords of at most this many characters are guaranteed to hash: their
/// UTF-8 form stays within the byte bound the hashing algorithm accepts.
pub const MAX_HASHABLE_PASSWORD_CHARS: usize = 0x3FFF_FFFF;

/// Whether the PHC hash string `stored` verifies against `password`.
///
/// This is the outcome of parsing `stored` and recomputing the hash of
/// `password` with the salt and parameters embedded in it: a function of the
/// two strings alone, named here rather than spelled out.
pub uninterp spec fn phc_matches(stored: Seq<char>, password: Seq<char>) -> bool;

/// Relies on argon2's `PasswordHasher::hash_password` with a fresh salt from
/// `SaltString::generate`: with a generated salt it fails only when the
/// password exceeds 2^32 - 1 bytes (and a `str` of at most
/// `MAX_HASHABLE_PASSWORD_CHARS` characters is at most 0xFFFF_FFFC bytes),
/// and the produced PHC string verifies against the very password it was
/// computed from.
#[verifier::external_body]
fn argon2_hash(password: &str) -> (r: Option<String>)
    ensures
        password@.len() <= MAX_HASHABLE_PASSWORD_CHARS ==> r is Some,
        r matches Some(h) ==> phc_matches(h@, password@),
{
    let salt = argon2::password_hash::SaltString::generate(&mut rand_core::OsRng);
    argon2::PasswordHasher::hash_password(&argon2::Argon2::default(), password.as_bytes(), &salt)
        .ok()
        .map(|h| h.to_string())
}

/// Relies on argon2's `PasswordHash::new` and `PasswordVerifier::verify_password`:
/// the outcome is a function of the stored string and the password alone, and
/// any parse or mismatch failure is reported uniformly as `false`.
#[verifier::external_body]
fn argon2_verify(password: &str, stored_hash: &str) -> (r: bool)
    ensures
        r == phc_matches(stored_hash@, password@),
{
    match argon2::PasswordHash::new(stored_hash) {
        Ok(parsed) => argon2::PasswordVerifier::verify_password(
            &argon2::Argon2::default(),
            password.as_bytes(),
            &parsed,
        )
            .is_ok(),
        Err(_) => false,
    }
}

/// Hash `password` with a fresh random salt. Two calls on the same password
/// give different strings (the salt differs), but every result verifies
/// against the password it was made from. `None` reports an internal
/// hashing failure, which cannot arise for passwords of ordinary length.
pub fn hash(password: &str) -> (r: Option<String>)
    ensures
        password@.len() <= MAX_HASHABLE_PASSWORD_CHARS ==> r is Some,
        r matches Some(h) ==> phc_matches(h@, password@),
{
    argon2_hash(password)
}

/// Check `password` against the stored PHC hash string. A malformed stored
/// hash and a wrong password are indistinguishable: both give `false`.
pub fn verify(password: &str, stored_hash: &str) -> (r: bool)
    ensures
        r == phc_matches(stored_hash@, password@),
{
    argon2_verify(password, stored_hash)
}

} // verus!
