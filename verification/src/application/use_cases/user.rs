//! Registering users and looking them up.
use vstd::prelude::*;
use crate::application::app_error::AppError;
use crate::domain::entities::user::User;

verus! {

/// Turns a password into the hash that is stored for it.
pub trait UserCredentialsHasher: Send + Sync {
    /// `hash` is a hash this hasher makes of `password`. A hasher that does
    /// not say which strings it makes allows any.
    open spec fn hashes_to(&self, password: Seq<char>, hash: Seq<char>) -> bool {
        true
    }

    /// This hasher never fails to hash `password`. A hasher that does not
    /// say when it succeeds promises nothing.
    open spec fn never_fails_on(&self, password: Seq<char>) -> bool {
        false
    }

    /// A hash of `password`, or the error that stopped the hashing.
    fn hash_password(&self, password: &str) -> (r: Result<String, AppError>)
        ensures
            self.never_fails_on(password@) ==> r is Ok,
            r matches Ok(h) ==> self.hashes_to(password@, h@),
    ;
}

/// Tells whether a password matches a stored hash.
pub trait UserCredentialsVerifier: Send + Sync {
    /// This verifier takes `password` for the one `stored` is the hash of.
    spec fn accepts(&self, password: Seq<char>, stored: Seq<char>) -> bool;

    /// Whether `password` matches `stored_hash`.
    fn verify_user_password(&self, password: &str, stored_hash: &str) -> (r: bool)
        ensures
            r == self.accepts(password@, stored_hash@),
    ;
}

/// The user to store for a registration: its password hash is what
/// `hasher` makes of `password`, and an error of the hasher ends the
/// registration.
pub fn new_registered_user<H: UserCredentialsHasher + ?Sized>(
    hasher: &H,
    username: String,
    email: String,
    password: &str,
) -> (r: Result<User, AppError>)
    ensures
        hasher.never_fails_on(password@) ==> r is Ok,
        r matches Ok(u) ==> u.username == username && u.email == email && hasher.hashes_to(
            password@,
            u.password_hash@,
        ),
{
    let hash = hasher.hash_password(password)?;
    Ok(User::new(username, email, hash))
}

/// The user that was found, or `ResourceNotFound("User", id)`.
pub fn require_user(found: Option<User>, id: u128) -> (r: Result<User, AppError>)
    ensures
        match found {
            Some(u) => r == Ok::<User, AppError>(u),
            None => r matches Err(AppError::ResourceNotFound(k, i)) && k@ == "User"@ && i == id,
        },
{
    match found {
        Some(u) => Ok(u),
        None => Err(AppError::ResourceNotFound("User", id)),
    }
}

/// Fails with `ResourceNotFound("User", user)` unless the user exists.
pub fn validate_user_exists(exists: bool, user: u128) -> (r: Result<(), AppError>)
    ensures
        exists ==> r == Ok::<(), AppError>(()),
        !exists ==> (r matches Err(AppError::ResourceNotFound(k, i)) && k@ == "User"@ && i == user),
{
    if !exists {
        return Err(AppError::ResourceNotFound("User", user));
    }
    Ok(())
}

} // verus!
