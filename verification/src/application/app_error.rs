//! The errors that a request ends in.
use vstd::prelude::*;
use crate::adapters::http::validation::PayloadError;
use crate::domain::domain_error::{DomainError, DomainResult};

verus! {

/// Why a request failed.
#[derive(Debug)]
pub enum AppError {
    /// The caller is not who it claims, or may not do what it asks.
    InvalidCredentials,
    /// Something went wrong inside the service, with a description.
    Internal(String),
    /// A rule of the domain refused the request.
    Domain(DomainError),
    /// No resource of the kind (the text) has the id.
    ResourceNotFound(&'static str, u128),
    /// No user has the email address.
    UserEmailNotFound(String),
    /// Fields of the request failed their checks.
    InvalidPayload(Vec<PayloadError>),
}

/// Carries a domain error into an `AppError`.
pub fn from_domain<T>(r: DomainResult<T>) -> (out: Result<T, AppError>)
    ensures
        match r {
            Ok(v) => out == Ok::<T, AppError>(v),
            Err(e) => out matches Err(AppError::Domain(d)) && d == e,
        },
{
    match r {
        Ok(v) => Ok(v),
        Err(e) => Err(AppError::Domain(e)),
    }
}

/// The value of `found`, or `ResourceNotFound(kind, id)` when there is none.
pub fn require_found<T>(found: Option<T>, kind: &'static str, id: u128) -> (out: Result<T, AppError>)
    ensures
        match found {
            Some(v) => out == Ok::<T, AppError>(v),
            None => out matches Err(AppError::ResourceNotFound(k, i)) && k@ == kind@ && i == id,
        },
{
    match found {
        Some(v) => Ok(v),
        None => Err(AppError::ResourceNotFound(kind, id)),
    }
}

} // verus!
