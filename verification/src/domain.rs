pub mod domain_error;
pub mod entities;
pub mod stable_sort;
pub mod services;
