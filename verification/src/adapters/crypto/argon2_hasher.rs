//! Password hashing with Argon2.
use vstd::prelude::*;
use argon2::password_hash::{PasswordHasher, PasswordVerifier, SaltString, rand_core::OsRng};
use argon2::{Argon2, PasswordHash};
use crate::application::app_error::AppError;
use crate::application::use_cases::user::{UserCredentialsHasher, UserCredentialsVerifier};

verus! {

#[verifier::external_type_specification]
#[verifier::external_body]
pub struct ExArgon2<'key>(Argon2<'key>);

#[verifier::external_type_specification]
#[verifier::external_body]
pub struct ExSaltString(SaltString);

/// Whether `password` verifies against the PHC string `stored_hash` under
/// Argon2 without a secret key: what `PasswordHash::new` followed by
/// `Argon2::verify_password` (of `Argon2::default()`) gives.
pub uninterp spec fn argon2_verifies(password: Seq<char>, stored_hash: Seq<char>) -> bool;

/// `h` is a PHC string of an Argon2id hash, version 19 (`0x13`).
pub open spec fn is_argon2id_v19(h: Seq<char>) -> bool {
    h.len() >= 15 && h.subrange(0, 15) == "$argon2id$v=19$"@
}

/// `stored` cannot be parsed as a PHC string: it is empty or does not begin
/// with `$`.
pub open spec fn malformed_phc(stored: Seq<char>) -> bool {
    stored.len() == 0 || stored[0] != '$'
}

/// Calls `Argon2::default()`. Nothing is claimed of the context.
#[verifier::external_body]
fn argon2_default_context() -> Argon2<'static> {
    Argon2::default()
}

/// Calls `SaltString::generate(&mut OsRng)`: a random salt from the
/// operating system's generator, so nothing is claimed of it.
#[verifier::external_body]
fn generate_salt() -> SaltString {
    SaltString::generate(&mut OsRng)
}

/// Calls `hasher.hash_password` on `password` and `salt` (`hasher` is made
/// by `Argon2::default()`, as every `Argon2` value of this library is) and
/// gives the PHC string of the hash (`to_string` of the `PasswordHash`), or
/// none when hashing fails. The argon2 source fails the hashing of a
/// generated salt under the default parameters only for a password of more
/// than `0xFFFF_FFFF` bytes, which a password of at most `0x3FFF_FFFF`
/// characters (at most four bytes each) never is. The string depends on the
/// salt, which is random, so it is not stated; what is claimed is that
/// `password` verifies against it, as `PasswordVerifier::verify_password`
/// recomputes the hash with the algorithm, version, parameters and salt that
/// the string records, and that it begins with the default algorithm and
/// version, `$argon2id$v=19$`, as `PasswordHash`'s `Display` writes them.
#[verifier::external_body]
fn argon2_hash(hasher: &Argon2<'static>, password: &str, salt: &SaltString) -> (r: Option<String>)
    ensures
        password@.len() <= 0x3FFF_FFFF ==> r is Some,
        r matches Some(h) ==> argon2_verifies(password@, h@),
        r matches Some(h) ==> is_argon2id_v19(h@),
{
    match hasher.hash_password(password.as_bytes(), salt) {
        Ok(hash) => Some(hash.to_string()),
        Err(_) => None,
    }
}

/// Parses `stored_hash` with `PasswordHash::new` and checks `password`
/// against it with `hasher.verify_password` (`hasher` is made by
/// `Argon2::default()`, without a secret key); a string that does not parse
/// gives false, and `PasswordHash::parse` refuses an empty string and one
/// that does not begin with `$`.
#[verifier::external_body]
fn argon2_verify(hasher: &Argon2<'static>, password: &str, stored_hash: &str) -> (r: bool)
    ensures
        r == argon2_verifies(password@, stored_hash@),
        malformed_phc(stored_hash@) ==> !r,
{
    match PasswordHash::new(stored_hash) {
        Ok(hash) => hasher.verify_password(password.as_bytes(), &hash).is_ok(),
        Err(_) => false,
    }
}

/// Hashes and verifies passwords with Argon2 (the default algorithm,
/// version and parameters, no secret key).
pub struct ArgonPasswordHasher {
    hasher: Argon2<'static>,
}

impl ArgonPasswordHasher {
    /// A hasher with the default Argon2 context.
    pub fn new() -> Self {
        ArgonPasswordHasher { hasher: argon2_default_context() }
    }
}

impl Default for ArgonPasswordHasher {
    fn default() -> Self {
        Self::new()
    }
}

impl UserCredentialsHasher for ArgonPasswordHasher {
    /// An Argon2 hash of `password` is an Argon2id version 19 PHC string
    /// against which it verifies.
    open spec fn hashes_to(&self, password: Seq<char>, hash: Seq<char>) -> bool {
        argon2_verifies(password, hash) && is_argon2id_v19(hash)
    }

    /// Argon2 hashes every password of at most `0x3FFF_FFFF` characters.
    open spec fn never_fails_on(&self, password: Seq<char>) -> bool {
        password.len() <= 0x3FFF_FFFF
    }

    /// The PHC string of `password` under a fresh random salt, an Argon2id
    /// version 19 hash; it succeeds for every password of at most
    /// `0x3FFF_FFFF` characters, and a failure of the hashing ends in
    /// `Internal("Password hashing failed.")`.
    fn hash_password(&self, password: &str) -> (r: Result<String, AppError>)
        ensures
            password@.len() <= 0x3FFF_FFFF ==> r is Ok,
            r matches Ok(h) ==> argon2_verifies(password@, h@) && is_argon2id_v19(h@),
            r matches Err(e) ==> (e matches AppError::Internal(m) && m@ == "Password hashing failed."@),
    {
        let salt = generate_salt();
        match argon2_hash(&self.hasher, password, &salt) {
            Some(hash) => Ok(hash),
            None => Err(AppError::Internal("Password hashing failed.".to_string())),
        }
    }
}

impl UserCredentialsVerifier for ArgonPasswordHasher {
    /// The password verifies against the stored PHC string.
    open spec fn accepts(&self, password: Seq<char>, stored: Seq<char>) -> bool {
        argon2_verifies(password, stored)
    }

    /// `password` verifies against `stored_hash`; a stored hash that does
    /// not parse verifies nothing.
    fn verify_user_password(&self, password: &str, stored_hash: &str) -> (r: bool)
        ensures
            r == argon2_verifies(password@, stored_hash@),
            malformed_phc(stored_hash@) ==> !r,
    {
        argon2_verify(&self.hasher, password, stored_hash)
    }
}

} // verus!
