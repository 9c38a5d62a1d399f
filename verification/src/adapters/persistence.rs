pub mod column;
pub mod board;
pub mod item;
pub mod user;
pub mod auth;
