pub mod validation;
pub mod routes;
