//! Field checks of request payloads, done by the `validator` crate.
use vstd::prelude::*;
use validator::{ValidateEmail, ValidateLength};

verus! {

/// Whether `validator` takes `s` for an email address (the HTML5 rule: a
/// local part and a domain, or an address literal, within RFC 5321's
/// lengths).
pub uninterp spec fn is_valid_email(s: Seq<char>) -> bool;

/// Calls `ValidateEmail::validate_email` on `s`. Its result is named by
/// `is_valid_email`; its source refuses a string without `@`.
#[verifier::external_body]
pub(crate) fn validate_email(s: &str) -> (r: bool)
    ensures
        r == is_valid_email(s@),
        r ==> s@.contains('@'),
{
    s.validate_email()
}

/// Calls `ValidateLength::validate_length` on `s` (no exact length): the
/// number of characters of `s` is at least `min` and at most `max`, where
/// given.
#[verifier::external_body]
pub(crate) fn validate_length(s: &str, min: Option<u64>, max: Option<u64>) -> (r: bool)
    ensures
        r == ((min matches Some(m) ==> s@.len() >= m) && (max matches Some(m) ==> s@.len() <= m)),
{
    ValidateLength::<u64>::validate_length(&s, min, max, None)
}

/// A field of a payload that failed its check.
#[derive(Debug, Clone, Copy, PartialEq, Eq, Structural)]
pub enum PayloadError {
    InvalidEmail,
    PasswordTooLong,
    TitleLength,
    DescriptionTooLong,
}

impl PayloadError {
    /// The field that failed.
    pub fn field(&self) -> (r: &'static str)
        ensures
            r@ == (match self {
                PayloadError::InvalidEmail => "email"@,
                PayloadError::PasswordTooLong => "password"@,
                PayloadError::TitleLength => "title"@,
                PayloadError::DescriptionTooLong => "description"@,
            }),
    {
        match self {
            PayloadError::InvalidEmail => "email",
            PayloadError::PasswordTooLong => "password",
            PayloadError::TitleLength => "title",
            PayloadError::DescriptionTooLong => "description",
        }
    }

    /// The message the failed check gives.
    pub fn message(&self) -> (r: &'static str)
        ensures
            r@ == (match self {
                PayloadError::InvalidEmail => "Invalid email format"@,
                PayloadError::PasswordTooLong => "Password too long"@,
                PayloadError::TitleLength => "Title must be between 1 and 255 characters"@,
                PayloadError::DescriptionTooLong => "Description is too long"@,
            }),
    {
        match self {
            PayloadError::InvalidEmail => "Invalid email format",
            PayloadError::PasswordTooLong => "Password too long",
            PayloadError::TitleLength => "Title must be between 1 and 255 characters",
            PayloadError::DescriptionTooLong => "Description is too long",
        }
    }
}

/// The errors of the checks that failed, in field order.
pub open spec fn failed_checks(checks: Seq<(bool, PayloadError)>) -> Seq<PayloadError>
    decreases checks.len(),
{
    if checks.len() == 0 {
        Seq::empty()
    } else if checks.last().0 {
        failed_checks(checks.drop_last())
    } else {
        failed_checks(checks.drop_last()).push(checks.last().1)
    }
}

/// The title of an item is 1 to 255 characters and its description, if
/// any, at most 2000.
pub fn validate_item_fields(title: &str, description: &Option<String>) -> (r: Result<
    (),
    Vec<PayloadError>,
>)
    ensures
        ({
            let title_ok = 1 <= title@.len() <= 255;
            let description_ok = description matches Some(d) ==> d@.len() <= 2000;
            &&& (title_ok && description_ok) ==> r is Ok
            &&& !(title_ok && description_ok) ==> (r matches Err(errs) && errs@ == failed_checks(
                seq![(title_ok, PayloadError::TitleLength), (description_ok, PayloadError::DescriptionTooLong)],
            ))
        }),
{
    let title_ok = validate_length(title, Some(1), Some(255));
    let description_ok = match description {
        Some(d) => validate_length(d.as_str(), None, Some(2000)),
        None => true,
    };
    let ghost checks = seq![(title_ok, PayloadError::TitleLength), (description_ok, PayloadError::DescriptionTooLong)];
    let mut errs: Vec<PayloadError> = Vec::new();
    if !title_ok {
        errs.push(PayloadError::TitleLength);
    }
    if !description_ok {
        errs.push(PayloadError::DescriptionTooLong);
    }
    proof {
        assert(checks.drop_last() =~= seq![(title_ok, PayloadError::TitleLength)]);
        assert(checks.drop_last().drop_last() =~= Seq::<(bool, PayloadError)>::empty());
        reveal_with_fuel(failed_checks, 3);
            assert(errs@ =~= failed_checks(checks));
    }
    if errs.len() == 0 {
        Ok(())
    } else {
        Err(errs)
    }
}

} // verus!
