//! A registered user.
use vstd::prelude::*;
use crate::ids::{new_uuid, utc_now_micros};

verus! {

/// A user, with the hash of its password; `created_at` is in microseconds
/// since the Unix epoch.
#[derive(Debug)]
pub struct User {
    pub id: u128,
    pub username: String,
    pub email: String,
    pub password_hash: String,
    pub created_at: i64,
}

impl User {
    /// A new user under a fresh id, created now.
    pub fn new(username: String, email: String, password_hash: String) -> (u: Self)
        ensures
            u.username == username,
            u.email == email,
            u.password_hash == password_hash,
    {
        Self { id: new_uuid(), username, email, password_hash, created_at: utc_now_micros() }
    }
}

} // verus!
