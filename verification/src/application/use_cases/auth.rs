//! Sessions: access-token claims, refresh tokens, and the decisions of login
//! and refresh.
use vstd::prelude::*;
use crate::application::app_error::AppError;
use crate::application::use_cases::user::UserCredentialsVerifier;
use crate::domain::entities::user::User;
use crate::ids::{new_uuid, utc_now_micros, utc_now_secs_nanos};

verus! {

/// The claims of an access token: its user, and when it expires (whole
/// seconds since the Unix epoch).
#[derive(Debug, Clone, Copy, PartialEq, Eq)]
pub struct Claims {
    pub sub: u128,
    pub exp: usize,
}

/// A refresh token of `user_id`, created and expiring at the given instants
/// (microseconds since the Unix epoch).
#[derive(Debug, Clone, Copy, PartialEq, Eq)]
pub struct RefreshToken {
    pub token: u128,
    pub user_id: u128,
    pub expires_at: i64,
    pub created_at: i64,
}

/// The expiry of claims made at `now` (microseconds) valid for `valid_secs`:
/// the whole seconds of the instant `valid_secs` after `now`.
pub open spec fn claims_expiry(now: int, valid_secs: int) -> int {
    now / 1_000_000 + valid_secs
}

/// Claims made at `now` for `valid_secs` can be expressed: `now` is not
/// before the Unix epoch and the expiry fits the clock and a `usize`.
pub open spec fn claims_expressible(now: int, valid_secs: int) -> bool {
    &&& now >= 0
    &&& claims_expiry(now, valid_secs) <= i64::MAX
    &&& claims_expiry(now, valid_secs) <= usize::MAX
}

/// The claims for `user_id` made at `now` for `valid_secs`: none when they
/// cannot be expressed.
pub open spec fn claims_at(user_id: u128, valid_secs: u64, now: i64) -> Option<Claims> {
    if claims_expressible(now as int, valid_secs as int) {
        Some(Claims { sub: user_id, exp: claims_expiry(now as int, valid_secs as int) as usize })
    } else {
        None
    }
}

/// `t` is what making a refresh token of `user_id` at `now` for
/// `valid_secs` gives: a token, created at `now` and expiring at
/// `refresh_expiry`, exactly when that expiry fits an `i64`.
pub open spec fn refresh_token_made_at(t: Option<RefreshToken>, user_id: u128, valid_secs: u64, now: i64) -> bool {
    &&& (t is Some <==> refresh_expiry(now as int, valid_secs as int) <= i64::MAX)
    &&& (t matches Some(t) ==> t.user_id == user_id && t.created_at == now && t.expires_at
        == refresh_expiry(now as int, valid_secs as int))
}

/// The refresh token `t` has expired at the instant `now`, in nanoseconds
/// since the Unix epoch: `now` is past its expiry (held in microseconds),
/// even by less than a microsecond.
pub open spec fn expired_at(t: RefreshToken, now: int) -> bool {
    now > t.expires_at * 1000
}

/// The instant of a clock reading of `secs` whole seconds since the Unix
/// epoch and `nanos` nanoseconds past them, in nanoseconds.
pub open spec fn instant_nanos(secs: i64, nanos: u32) -> int {
    secs * 1_000_000_000 + nanos
}

/// The expiry of a refresh token created at `now` for `valid_secs`.
pub open spec fn refresh_expiry(now: int, valid_secs: int) -> int {
    now + valid_secs * 1_000_000
}

impl Claims {
    /// The claims for `user_id`, made at `now`, valid for `valid_secs`.
    pub fn new_at(user_id: u128, valid_secs: u64, now: i64) -> (c: Claims)
        requires
            claims_expressible(now as int, valid_secs as int),
        ensures
            c.sub == user_id,
            c.exp == claims_expiry(now as int, valid_secs as int),
    {
        let secs: u64 = (now / 1_000_000) as u64;
        Claims { sub: user_id, exp: (secs + valid_secs) as usize }
    }

    /// The claims for `user_id` made at `now`, valid for `valid_secs`; none
    /// when `now` is before the Unix epoch or the expiry cannot be expressed.
    pub fn at(user_id: u128, valid_secs: u64, now: i64) -> (c: Option<Claims>)
        ensures
            c == claims_at(user_id, valid_secs, now),
    {
        if now < 0 || valid_secs > (i64::MAX as u64) - ((now / 1_000_000) as u64) || (
        now / 1_000_000) as u64 + valid_secs > usize::MAX as u64 {
            return None;
        }
        Some(Self::new_at(user_id, valid_secs, now))
    }

    /// The claims for `user_id`, made now, valid for `valid_secs`: what `at`
    /// gives for the clock's reading.
    pub fn new(user_id: u128, valid_secs: u64) -> (c: Option<Claims>)
        ensures
            exists|now: i64| c == #[trigger] claims_at(user_id, valid_secs, now),
            valid_secs > i64::MAX ==> c is None,
    {
        let now = utc_now_micros();
        Self::at(user_id, valid_secs, now)
    }
}

impl RefreshToken {
    /// A refresh token of `user_id` under a fresh token id, created at `now`
    /// and expiring `valid_secs` later.
    pub fn new_at(user_id: u128, valid_secs: u64, now: i64) -> (t: Self)
        requires
            i64::MIN <= refresh_expiry(now as int, valid_secs as int) <= i64::MAX,
        ensures
            t.user_id == user_id,
            t.created_at == now,
            t.expires_at == refresh_expiry(now as int, valid_secs as int),
    {
        let expires_at = (now as i128 + valid_secs as i128 * 1_000_000) as i64;
        Self { token: new_uuid(), user_id, expires_at, created_at: now }
    }

    /// A refresh token of `user_id` under a fresh token id, created at `now`
    /// and expiring `valid_secs` later; none when that instant cannot be
    /// expressed.
    pub fn at(user_id: u128, valid_secs: u64, now: i64) -> (t: Option<Self>)
        ensures
            refresh_token_made_at(t, user_id, valid_secs, now),
    {
        if now as i128 + valid_secs as i128 * 1_000_000 > i64::MAX as i128 {
            return None;
        }
        Some(Self::new_at(user_id, valid_secs, now))
    }

    /// A refresh token of `user_id` created now, expiring `valid_secs`
    /// later: what `at` gives for the clock's reading.
    pub fn new(user_id: u128, valid_secs: u64) -> (t: Option<Self>)
        ensures
            exists|now: i64| #[trigger] refresh_token_made_at(t, user_id, valid_secs, now),
    {
        let now = utc_now_micros();
        Self::at(user_id, valid_secs, now)
    }

    /// The token has expired at the instant `now` (nanoseconds since the
    /// Unix epoch): `now` is past its expiry.
    pub fn is_expired_at(&self, now: i128) -> (r: bool)
        ensures
            r == expired_at(*self, now as int),
    {
        now > self.expires_at as i128 * 1000
    }

    /// The token has expired: the clock reads past its expiry. What the
    /// clock reads is not known here; `is_expired_at` states the rule.
    pub fn is_expired(&self) -> (r: bool)
        ensures
            exists|secs: i64, nanos: u32| r == expired_at(*self, #[trigger] instant_nanos(secs, nanos)),
    {
        let now = clock_nanos();
        self.is_expired_at(now)
    }
}

/// The current instant, in nanoseconds since the Unix epoch.
fn clock_nanos() -> (now: i128)
    ensures
        exists|secs: i64, nanos: u32| now == #[trigger] instant_nanos(secs, nanos),
{
    let (secs, nanos) = utc_now_secs_nanos();
    let now = secs as i128 * 1_000_000_000 + nanos as i128;
    assert(now == instant_nanos(secs, nanos));
    now
}

/// The user a login is for: it must exist and `password_matches` its
/// stored hash, else the credentials are invalid.
pub fn login_decision(user: Option<User>, password_matches: bool) -> (r: Result<User, AppError>)
    ensures
        match user {
            Some(u) => if password_matches {
                r == Ok::<User, AppError>(u)
            } else {
                r matches Err(AppError::InvalidCredentials)
            },
            None => r matches Err(AppError::InvalidCredentials),
        },
{
    match user {
        Some(u) => if password_matches {
            Ok(u)
        } else {
            Err(AppError::InvalidCredentials)
        },
        None => Err(AppError::InvalidCredentials),
    }
}

/// The user a login with `password` is for: `verifier` checks the password
/// against the stored hash of the user found, if any.
pub fn authenticate<V: UserCredentialsVerifier + ?Sized>(
    verifier: &V,
    user: Option<User>,
    password: &str,
) -> (r: Result<User, AppError>)
    ensures
        user is None ==> r matches Err(AppError::InvalidCredentials),
        user matches Some(u) ==> (r is Ok <==> verifier.accepts(password@, u.password_hash@)),
        r matches Ok(u) ==> user == Some(u),
        r matches Err(e) ==> e is InvalidCredentials,
{
    let password_matches = match &user {
        Some(u) => verifier.verify_user_password(password, u.password_hash.as_str()),
        None => false,
    };
    login_decision(user, password_matches)
}

/// What a refresh request comes to.
#[derive(Debug, Clone, Copy, PartialEq, Eq)]
pub enum RefreshDecision {
    /// No such token: the credentials are invalid.
    Reject,
    /// The token (its id) has expired: delete it, then reject.
    RevokeAndReject(u128),
    /// Issue an access token for this user.
    IssueFor(u128),
}

/// The decision on a refresh with the token found, if any, at the instant
/// `now` (nanoseconds since the Unix epoch).
pub fn decide_refresh_at(token: Option<RefreshToken>, now: i128) -> (d: RefreshDecision)
    ensures
        d == decide_refresh_spec(token, now as int),
{
    match token {
        None => RefreshDecision::Reject,
        Some(t) => if t.is_expired_at(now) {
            RefreshDecision::RevokeAndReject(t.token)
        } else {
            RefreshDecision::IssueFor(t.user_id)
        },
    }
}

/// The decision on a refresh with the token found, if any, now.
pub fn decide_refresh(token: Option<RefreshToken>) -> (d: RefreshDecision)
    ensures
        exists|secs: i64, nanos: u32| d == decide_refresh_spec(token, #[trigger] instant_nanos(secs, nanos)),
{
    let now = clock_nanos();
    decide_refresh_at(token, now)
}

/// What a refresh with the token found, if any, comes to at the instant
/// `now` (nanoseconds): none is a rejection; an expired token is revoked and
/// rejected; a live one issues an access token for its user.
pub open spec fn decide_refresh_spec(token: Option<RefreshToken>, now: int) -> RefreshDecision {
    match token {
        None => RefreshDecision::Reject,
        Some(t) => if expired_at(t, now) {
            RefreshDecision::RevokeAndReject(t.token)
        } else {
            RefreshDecision::IssueFor(t.user_id)
        },
    }
}

} // verus!
