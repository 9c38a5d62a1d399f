//! Payloads of the authentication routes.
use vstd::prelude::*;
use crate::adapters::http::validation::{PayloadError, failed_checks, is_valid_email, validate_email, validate_length};
use crate::application::app_error::AppError;

verus! {

/// The name of the cookie that carries the refresh token.
pub const REFRESH_TOKEN_COOKIE_NAME: &'static str = "refresh_token";

/// A login request.
#[derive(Debug)]
pub struct LoginPayload {
    pub email: String,
    pub password: String,
}

/// The access token handed out.
#[derive(Debug)]
pub struct AuthResponse {
    pub access_token: String,
}

impl LoginPayload {
    /// The email is an address and the password at most 255 characters; the
    /// errors of the failed checks, in field order, otherwise.
    pub fn validate(&self) -> (r: Result<(), Vec<PayloadError>>)
        ensures
            ({
                let email_ok = is_valid_email(self.email@);
                let password_ok = self.password@.len() <= 255;
                &&& (email_ok && password_ok) ==> r is Ok
                &&& !(email_ok && password_ok) ==> (r matches Err(errs) && errs@ == failed_checks(
                    seq![(email_ok, PayloadError::InvalidEmail), (password_ok, PayloadError::PasswordTooLong)],
                ))
            }),
    {
        let email_ok = validate_email(self.email.as_str());
        let password_ok = validate_length(self.password.as_str(), None, Some(255));
        let ghost checks = seq![(email_ok, PayloadError::InvalidEmail), (password_ok, PayloadError::PasswordTooLong)];
        let mut errs: Vec<PayloadError> = Vec::new();
        if !email_ok {
            errs.push(PayloadError::InvalidEmail);
        }
        if !password_ok {
            errs.push(PayloadError::PasswordTooLong);
        }
        proof {
            assert(checks.drop_last() =~= seq![(email_ok, PayloadError::InvalidEmail)]);
            assert(checks.drop_last().drop_last() =~= Seq::<(bool, PayloadError)>::empty());
            reveal_with_fuel(failed_checks, 3);
            assert(errs@ =~= failed_checks(checks));
        }
        if errs.len() == 0 {
            Ok(())
        } else {
            Err(errs)
        }
    }
}

/// The 128-bit value of the UUID that `uuid::Uuid::parse_str` reads from
/// `s` (simple, hyphenated, braced or URN form), if it reads one.
pub uninterp spec fn uuid_from_str(s: Seq<char>) -> Option<u128>;

/// Calls `uuid::Uuid::parse_str` on `s` and hands back the value of the UUID
/// read (`Uuid::as_u128`, lossless), or none when it is refused. Its result
/// is named by `uuid_from_str`.
#[verifier::external_body]
fn parse_uuid(s: &str) -> (r: Option<u128>)
    ensures
        r == uuid_from_str(s@),
{
    match uuid::Uuid::parse_str(s) {
        Ok(u) => Some(u.as_u128()),
        Err(_) => None,
    }
}

/// The refresh token id that the value of the refresh-token cookie carries,
/// if it is a UUID.
pub fn refresh_token_id(cookie_value: &str) -> (r: Option<u128>)
    ensures
        r == uuid_from_str(cookie_value@),
{
    parse_uuid(cookie_value)
}

/// The refresh token id of a refresh request, from the value of its
/// refresh-token cookie, if it has one: `InvalidCredentials` without the
/// cookie or when its value is not a UUID.
pub fn refresh_request_token(cookie_value: Option<&str>) -> (r: Result<u128, AppError>)
    ensures
        match cookie_value {
            None => r matches Err(AppError::InvalidCredentials),
            Some(v) => match uuid_from_str(v@) {
                Some(id) => r == Ok::<u128, AppError>(id),
                None => r matches Err(AppError::InvalidCredentials),
            },
        },
{
    match cookie_value {
        None => Err(AppError::InvalidCredentials),
        Some(v) => match refresh_token_id(v) {
            Some(id) => Ok(id),
            None => Err(AppError::InvalidCredentials),
        },
    }
}

} // verus!
