//! Payloads of the user routes.
use vstd::prelude::*;
use vstd::std_specs::convert::FromSpecImpl;
use crate::domain::entities::user::User;

verus! {

/// The answer to a registration.
#[derive(Debug, Clone, Copy)]
pub struct RegisterResponse {
    pub success: bool,
}

/// What a user sees of its own account.
#[derive(Debug)]
pub struct ProfileResponse {
    pub id: u128,
    pub username: String,
    pub email: String,
}

impl From<User> for ProfileResponse {
    fn from(value: User) -> (r: Self) {
        Self { id: value.id, email: value.email, username: value.username }
    }
}

impl FromSpecImpl<User> for ProfileResponse {
    open spec fn obeys_from_spec() -> bool {
        true
    }

    open spec fn from_spec(v: User) -> Self {
        ProfileResponse { id: v.id, username: v.username, email: v.email }
    }
}

} // verus!
