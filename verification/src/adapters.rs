pub mod crypto;
pub mod persistence;
pub mod http;
