pub mod app_error;
pub mod use_cases;
