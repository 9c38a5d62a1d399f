//! Names used across the crate.
use vstd::prelude::*;
pub use crate::application::app_error::AppError;

verus! {

/// What a request of the service gives back.
pub type AppResult<T> = core::result::Result<T, AppError>;

/// A wrapper for the newtype pattern.
pub struct W<T>(pub T);

} // verus!
