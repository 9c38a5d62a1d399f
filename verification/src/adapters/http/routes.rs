pub mod auth;
pub mod board;
pub mod column;
pub mod item;
pub mod user;
