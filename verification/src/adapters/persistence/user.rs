//! Users as the database stores them.
use vstd::prelude::*;
use vstd::std_specs::convert::FromSpecImpl;
use crate::domain::entities::user::User;

verus! {

/// A user row; `created_at` is in microseconds since the Unix epoch.
#[derive(Debug)]
pub struct UserDb {
    pub id: u128,
    pub username: String,
    pub email: String,
    pub password_hash: String,
    pub created_at: i64,
}

impl From<UserDb> for User {
    fn from(user_db: UserDb) -> (r: Self) {
        User {
            id: user_db.id,
            username: user_db.username,
            email: user_db.email,
            password_hash: user_db.password_hash,
            created_at: user_db.created_at,
        }
    }
}

impl FromSpecImpl<UserDb> for User {
    open spec fn obeys_from_spec() -> bool {
        true
    }

    open spec fn from_spec(v: UserDb) -> Self {
        User {
            id: v.id,
            username: v.username,
            email: v.email,
            password_hash: v.password_hash,
            created_at: v.created_at,
        }
    }
}

} // verus!
