//! Refresh tokens as the database stores them.
use vstd::prelude::*;
use vstd::std_specs::convert::FromSpecImpl;
use crate::application::use_cases::auth::RefreshToken;

verus! {

/// A refresh-token row; instants are microseconds since the Unix epoch.
#[derive(Debug, Clone, Copy, PartialEq, Eq)]
pub struct RefreshTokenDb {
    pub token: u128,
    pub user_id: u128,
    pub expires_at: i64,
    pub created_at: i64,
}

impl From<RefreshTokenDb> for RefreshToken {
    fn from(value: RefreshTokenDb) -> (r: Self) {
        Self {
            token: value.token,
            user_id: value.user_id,
            expires_at: value.expires_at,
            created_at: value.created_at,
        }
    }
}

impl FromSpecImpl<RefreshTokenDb> for RefreshToken {
    open spec fn obeys_from_spec() -> bool {
        true
    }

    open spec fn from_spec(v: RefreshTokenDb) -> Self {
        RefreshToken {
            token: v.token,
            user_id: v.user_id,
            expires_at: v.expires_at,
            created_at: v.created_at,
        }
    }
}

} // verus!
