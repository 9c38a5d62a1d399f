//! Kanban board backend: the domain rules, use-case decisions and data
//! conversions of the service, each with its contract.
pub mod ids;
pub mod domain;
pub mod application;
pub mod adapters;
pub mod infrastructure;
pub mod prelude;
